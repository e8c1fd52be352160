//! What the surface provider delivers to the event loop, and what the event
//! loop asks of its caller in return.

use vstd::prelude::*;
use crate::frame::{PassPlan, SurfaceError};
use crate::pipeline::PipelinePlan;
use crate::surface::{SurfaceConfig, TargetSize};

verus! {

/// Identity of a window, as the surface provider numbers it.
#[derive(Clone, Copy, Debug, PartialEq, Eq, Structural)]
pub struct WindowId(pub u64);

/// Whether a key went down or came up.
#[derive(Clone, Copy, Debug, PartialEq, Eq, Structural)]
pub enum KeyState {
    Pressed,
    Released,
}

/// The keys the event loop tells apart.
#[derive(Clone, Copy, Debug, PartialEq, Eq, Structural)]
pub enum Key {
    /// The key that ends the run.
    Escape,
    /// Any other key.
    Other,
}

/// An event addressed to one window.
#[derive(Clone, Copy, Debug, PartialEq, Eq, Structural)]
pub enum WindowEvent {
    /// The user asked for the window to be closed.
    CloseRequested,
    /// The drawable area of the window changed to the given size.
    Resized(TargetSize),
    /// A key changed state; `key` is absent when the provider cannot name it.
    KeyboardInput { state: KeyState, key: Option<Key> },
    /// Any other window event.
    Other,
}

impl WindowEvent {
    /// A close request and a press of the escape key end the run.
    pub open spec fn asks_to_exit(self) -> bool {
        self == WindowEvent::CloseRequested || self == (WindowEvent::KeyboardInput {
            state: KeyState::Pressed,
            key: Some(Key::Escape),
        })
    }

    /// Whether the event is a close request or a press of the escape key.
    #[verifier::when_used_as_spec(asks_to_exit)]
    pub fn is_exit_request(self) -> (r: bool)
        ensures
            r == self.asks_to_exit(),
    {
        match self {
            WindowEvent::CloseRequested => true,
            WindowEvent::KeyboardInput { state: KeyState::Pressed, key: Some(Key::Escape) } => true,
            _ => false,
        }
    }
}

/// An event delivered by the surface provider.
#[derive(Clone, Copy, Debug, PartialEq, Eq, Structural)]
pub enum Event {
    /// An event for the window with the given identity.
    Window { window: WindowId, event: WindowEvent },
    /// The window with the given identity has to be drawn again.
    RedrawRequested(WindowId),
    /// All pending input has been delivered.
    EventsCleared,
    /// Any other event.
    Other,
}

impl Event {
    /// The event asks the owner of `window` to end its run.
    pub open spec fn ends_run_of(self, window: WindowId) -> bool {
        self matches Event::Window { window: addressed, event } && addressed == window
            && event.asks_to_exit()
    }
}

/// What the caller has to do next. The actions of the frame cycle (`Acquire`,
/// `Record`, `SubmitAndPresent`) are answered with a report; the others end
/// the handling of the current event.
#[derive(Clone, Copy, Debug, PartialEq, Eq)]
pub enum Action {
    /// Nothing is to be done until the next event.
    Nothing,
    /// Leave the event loop.
    Exit,
    /// Ask the surface provider for one redraw of the owned window.
    RequestRedraw,
    /// Apply the first configuration to the surface, then build the pipeline.
    Initialize { config: SurfaceConfig, pipeline: PipelinePlan },
    /// Apply the configuration to the surface again.
    Reconfigure(SurfaceConfig),
    /// Request the next drawable image from the surface.
    Acquire,
    /// Record the render pass against the acquired image.
    Record(PassPlan),
    /// Submit the recorded commands to the queue, then present the image.
    SubmitAndPresent,
    /// Note the error and drop this frame.
    Skip(SurfaceError),
}

impl Action {
    /// The actions that only the frame cycle issues.
    pub open spec fn renders(self) -> bool {
        self is Acquire || self is Record || self is SubmitAndPresent
    }
}

/// An input that the state machine was not waiting for.
#[derive(Clone, Copy, Debug, PartialEq, Eq, Structural)]
pub enum OutOfTurn {
    /// An event arrived while a frame cycle was still in flight.
    FrameInFlight,
    /// A report arrived that the frame renderer was not waiting for.
    UnexpectedReport,
}

} // verus!
