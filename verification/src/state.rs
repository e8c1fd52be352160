//! The host itself: the single owner of the window's identity, the surface
//! configuration and the frame renderer, driven one input at a time.

use vstd::prelude::*;
use crate::event::{Action, Event, OutOfTurn, WindowEvent, WindowId};
use crate::frame::{pass_plan, Phase, Report, SurfaceError};
use crate::host::{Host, StartupError};
use crate::pipeline::pipeline_plan;
use crate::surface::{choose_format, SurfaceConfig, TargetSize};

verus! {

/// The state of a running host. The caller owns the window, the surface and
/// the device; it hands every event and every report to this value and
/// carries out the action it gets back.
#[derive(Debug)]
pub struct State {
    window: WindowId,
    size: TargetSize,
    config: SurfaceConfig,
    configured: bool,
    phase: Phase,
    running: bool,
}

impl View for State {
    type V = Host;

    closed spec fn view(&self) -> Host {
        Host {
            window: self.window,
            size: self.size,
            config: self.config,
            configured: self.configured,
            phase: self.phase,
            running: self.running,
        }
    }
}

impl State {
    #[verifier::type_invariant]
    spec fn valid(self) -> bool {
        self@.wf()
    }

    /// Sets up the host for the window with the given identity and size,
    /// choosing the surface configuration from what the surface reports.
    /// With the host comes the first thing to do.
    pub fn new(
        window: WindowId,
        size: TargetSize,
        formats: &Vec<wgpu::TextureFormat>,
        present_modes: &Vec<wgpu::PresentMode>,
        alpha_modes: &Vec<wgpu::CompositeAlphaMode>,
    ) -> (r: Result<(State, Action), StartupError>)
        ensures
            r matches Ok((state, action)) ==> state@.wf() && Host::startup(
                window,
                size,
                formats@,
                present_modes@,
                alpha_modes@,
            ) == Ok::<(Host, Action), StartupError>((state@, action)),
            r matches Err(error) ==> Host::startup(
                window,
                size,
                formats@,
                present_modes@,
                alpha_modes@,
            ) == Err::<(Host, Action), StartupError>(error),
    {
        let format = match choose_format(formats) {
            Some(format) => format,
            None => {
                return Err(StartupError::NoFormat);
            },
        };
        if present_modes.len() == 0 {
            return Err(StartupError::NoPresentMode);
        }
        if alpha_modes.len() == 0 {
            return Err(StartupError::NoAlphaMode);
        }
        let config = SurfaceConfig {
            format,
            width: size.width,
            height: size.height,
            present_mode: present_modes[0],
            alpha_mode: alpha_modes[0],
        };
        let drawable = size.is_drawable();
        let state = State {
            window,
            size,
            config,
            configured: drawable,
            phase: Phase::Idle,
            running: true,
        };
        let action = if drawable {
            Action::Initialize { config, pipeline: pipeline_plan(config.format) }
        } else {
            Action::Nothing
        };
        Ok((state, action))
    }

    /// The window the host owns.
    pub fn window(&self) -> (r: WindowId)
        ensures
            r == self@.window,
    {
        self.window
    }

    /// The current size of the render target.
    pub fn size(&self) -> (r: TargetSize)
        ensures
            r == self@.size,
    {
        self.size
    }

    /// The configuration of the surface.
    pub fn config(&self) -> (r: SurfaceConfig)
        ensures
            r == self@.config,
    {
        self.config
    }

    /// Whether a configuration has been applied to the surface.
    pub fn is_configured(&self) -> (r: bool)
        ensures
            r == self@.configured,
    {
        self.configured
    }

    /// Where the frame renderer stands.
    pub fn phase(&self) -> (r: Phase)
        ensures
            r == self@.phase,
    {
        self.phase
    }

    /// Whether the event loop has not terminated.
    pub fn is_running(&self) -> (r: bool)
        ensures
            r == self@.running,
    {
        self.running
    }

    /// Takes a new size for the render target and says how the surface is to
    /// follow. A size of positive area becomes the size of the configuration;
    /// any other leaves the configuration untouched.
    fn resize(&mut self, size: TargetSize) -> (action: Action)
        requires
            old(self)@.phase == Phase::Idle,
        ensures
            final(self)@.wf(),
            (final(self)@, action) == old(self)@.resize(size),
            size.drawable() ==> final(self)@.config.size() == size,
            !size.drawable() ==> final(self)@.config == old(self)@.config,
    {
        proof {
            use_type_invariant(&*self);
        }
        if size.is_drawable() {
            let config = self.config.with_size(size);
            let first = !self.configured;
            *self = State {
                window: self.window,
                size,
                config,
                configured: true,
                phase: self.phase,
                running: self.running,
            };
            if first {
                Action::Initialize { config, pipeline: pipeline_plan(config.format) }
            } else {
                Action::Reconfigure(config)
            }
        } else {
            self.size = size;
            Action::Nothing
        }
    }

    /// Lets the host consume a window event before the event loop acts on
    /// it. Nothing is consumed.
    fn input(&mut self, event: &WindowEvent) -> (consumed: bool)
        ensures
            !consumed,
            *final(self) == *old(self),
    {
        false
    }

    /// Per-frame changes to the host's own state, made once an image has
    /// been acquired and before the pass is recorded. There are none.
    fn update(&mut self)
        ensures
            *final(self) == *old(self),
    {
    }

    /// Starts a frame cycle by asking for the next image. While the target
    /// has no area nothing is drawn.
    fn render(&mut self) -> (action: Action)
        requires
            old(self)@.phase == Phase::Idle,
            old(self)@.running,
        ensures
            final(self)@.wf(),
            old(self)@.size.drawable() ==> action == Action::Acquire && final(self)@ == (Host {
                phase: Phase::Acquiring,
                ..old(self)@
            }),
            !old(self)@.size.drawable() ==> action == Action::Nothing && final(self)@ == old(
                self,
            )@,
    {
        proof {
            use_type_invariant(&*self);
        }
        if self.size.is_drawable() {
            self.phase = Phase::Acquiring;
            Action::Acquire
        } else {
            Action::Nothing
        }
    }

    /// Handles one event from the surface provider.
    ///
    /// Once the loop has terminated the answer is `Exit` whatever the event.
    /// A close request or a press of the escape key for the owned window
    /// terminates the loop whenever it comes; a frame in flight is abandoned.
    /// Any other event that arrives while a frame is in flight is refused
    /// with `FrameInFlight` and changes nothing. Between frames a resize of
    /// the owned window goes to the surface, a redraw request for the owned
    /// window starts a frame cycle, and drained input asks for one redraw.
    /// Every other event is ignored.
    pub fn dispatch(&mut self, event: Event) -> (r: Result<Action, OutOfTurn>)
        ensures
            final(self)@.wf(),
            (final(self)@, r) == old(self)@.dispatch(event),
    {
        proof {
            use_type_invariant(&*self);
        }
        if !self.running {
            return Ok(Action::Exit);
        }
        let idle = match self.phase {
            Phase::Idle => true,
            _ => false,
        };
        match event {
            Event::Window { window, event } => {
                if window != self.window || self.input(&event) {
                    if idle {
                        Ok(Action::Nothing)
                    } else {
                        Err(OutOfTurn::FrameInFlight)
                    }
                } else if event.is_exit_request() {
                    self.phase = Phase::Idle;
                    self.running = false;
                    Ok(Action::Exit)
                } else if !idle {
                    Err(OutOfTurn::FrameInFlight)
                } else {
                    match event {
                        WindowEvent::Resized(size) => Ok(self.resize(size)),
                        _ => Ok(Action::Nothing),
                    }
                }
            },
            Event::RedrawRequested(window) => {
                if !idle {
                    Err(OutOfTurn::FrameInFlight)
                } else if window == self.window {
                    Ok(self.render())
                } else {
                    Ok(Action::Nothing)
                }
            },
            Event::EventsCleared => {
                if idle {
                    Ok(Action::RequestRedraw)
                } else {
                    Err(OutOfTurn::FrameInFlight)
                }
            },
            Event::Other => {
                if idle {
                    Ok(Action::Nothing)
                } else {
                    Err(OutOfTurn::FrameInFlight)
                }
            },
        }
    }

    /// Takes the report on the action the frame cycle asked for last.
    ///
    /// After `Acquire`: an acquired image is recorded against; a lost surface
    /// is configured again with the current size of the target and the frame
    /// dropped; exhausted memory terminates the loop; a timeout or an
    /// outdated surface drops the frame. After `Record` the commands are
    /// submitted and the image presented, and after that the renderer is
    /// idle again. A report that the current phase does not wait for is
    /// refused with `UnexpectedReport` and changes nothing.
    pub fn advance(&mut self, report: Report) -> (r: Result<Action, OutOfTurn>)
        ensures
            final(self)@.wf(),
            (final(self)@, r) == old(self)@.advance(report),
    {
        proof {
            use_type_invariant(&*self);
        }
        match (self.phase, report) {
            (Phase::Acquiring, Report::Acquired) => {
                self.update();
                self.phase = Phase::Recording;
                Ok(Action::Record(pass_plan()))
            },
            (Phase::Acquiring, Report::AcquireFailed(error)) => {
                self.phase = Phase::Idle;
                match error {
                    SurfaceError::Lost => {
                        let size = self.size;
                        Ok(self.resize(size))
                    },
                    SurfaceError::OutOfMemory => {
                        self.running = false;
                        Ok(Action::Exit)
                    },
                    SurfaceError::Outdated => Ok(Action::Skip(error)),
                    SurfaceError::Timeout => Ok(Action::Skip(error)),
                }
            },
            (Phase::Recording, Report::Recorded) => {
                self.phase = Phase::Submitted;
                Ok(Action::SubmitAndPresent)
            },
            (Phase::Submitted, Report::Presented) => {
                self.phase = Phase::Idle;
                Ok(Action::Nothing)
            },
            _ => Err(OutOfTurn::UnexpectedReport),
        }
    }
}

} // verus!
