//! The rendering host as a state machine: the values it keeps, the states
//! that are valid, and what each event and each report does to them.

use vstd::prelude::*;
use crate::event::{Action, Event, OutOfTurn, WindowEvent, WindowId};
use crate::frame::{fixed_pass, Phase, Report, SurfaceError};
use crate::pipeline::fixed_pipeline;
use crate::surface::{chosen_format, SurfaceConfig, TargetSize};

verus! {

/// Why no host could be set up for a surface.
#[derive(Clone, Copy, Debug, PartialEq, Eq, Structural)]
pub enum StartupError {
    /// The surface reports no pixel format.
    NoFormat,
    /// The surface reports no present mode.
    NoPresentMode,
    /// The surface reports no alpha mode.
    NoAlphaMode,
}

/// Everything the host keeps between two inputs.
pub struct Host {
    /// The one window the host owns.
    pub window: WindowId,
    /// The current size of the render target.
    pub size: TargetSize,
    /// The configuration of the surface: the one applied last, or, before
    /// the first was applied, the one that could not be.
    pub config: SurfaceConfig,
    /// Whether a configuration has been applied, and the pipeline built.
    pub configured: bool,
    /// Where the frame renderer stands.
    pub phase: Phase,
    /// Whether the event loop has not terminated.
    pub running: bool,
}

/// An input of the state machine: an event from the surface provider, or a
/// report on an action of the frame cycle.
pub enum Input {
    Event(Event),
    Report(Report),
}

impl Host {
    /// The states the host can be in. While the target has positive area the
    /// surface is configured with exactly that size; what has been applied to
    /// the surface has positive area; and a frame is in flight only while the
    /// loop runs on a target of positive area.
    pub open spec fn wf(self) -> bool {
        &&& self.size.drawable() ==> self.configured && self.config.size() == self.size
        &&& self.configured ==> self.config.drawable()
        &&& self.phase != Phase::Idle ==> self.running && self.size.drawable()
    }

    /// The host for a window of the given size, with the first thing to do.
    /// The configuration takes its dimensions from the size. A target of
    /// positive area is configured at once; one without area is left alone.
    pub open spec fn start(window: WindowId, size: TargetSize, config: SurfaceConfig) -> (
        Host,
        Action,
    ) {
        let config = config.sized(size);
        (
            Host {
                window,
                size,
                config,
                configured: size.drawable(),
                phase: Phase::Idle,
                running: true,
            },
            if size.drawable() {
                Action::Initialize { config, pipeline: fixed_pipeline(config.format) }
            } else {
                Action::Nothing
            },
        )
    }

    /// Setting up the host from what the surface reports: the preferred
    /// format and the first present and alpha modes. It fails when one of the
    /// three lists is empty, the first empty list naming the error.
    pub open spec fn startup(
        window: WindowId,
        size: TargetSize,
        formats: Seq<wgpu::TextureFormat>,
        present_modes: Seq<wgpu::PresentMode>,
        alpha_modes: Seq<wgpu::CompositeAlphaMode>,
    ) -> Result<(Host, Action), StartupError> {
        if formats.len() == 0 {
            Err(StartupError::NoFormat)
        } else if present_modes.len() == 0 {
            Err(StartupError::NoPresentMode)
        } else if alpha_modes.len() == 0 {
            Err(StartupError::NoAlphaMode)
        } else {
            Ok(
                Host::start(
                    window,
                    size,
                    SurfaceConfig {
                        format: chosen_format(formats),
                        width: size.width,
                        height: size.height,
                        present_mode: present_modes[0],
                        alpha_mode: alpha_modes[0],
                    },
                ),
            )
        }
    }

    /// The target takes the new size. A size of positive area goes into the
    /// configuration, which is applied; any other leaves the configuration
    /// as it is.
    pub open spec fn resize(self, size: TargetSize) -> (Host, Action) {
        if size.drawable() {
            let config = self.config.sized(size);
            (
                Host { size, config, configured: true, ..self },
                if self.configured {
                    Action::Reconfigure(config)
                } else {
                    Action::Initialize { config, pipeline: fixed_pipeline(config.format) }
                },
            )
        } else {
            (Host { size, ..self }, Action::Nothing)
        }
    }

    /// One event from the surface provider. A terminated loop answers every
    /// event with `Exit`. A request to end the run is honoured whenever it
    /// comes, and a frame in flight is abandoned with it; any other event is
    /// refused while a frame is in flight. Between frames a resize of the
    /// owned window goes to the surface, a redraw request for it starts a
    /// frame cycle, and drained input asks for a redraw.
    pub open spec fn dispatch(self, event: Event) -> (Host, Result<Action, OutOfTurn>) {
        if !self.running {
            (self, Ok(Action::Exit))
        } else if event.ends_run_of(self.window) {
            (Host { running: false, phase: Phase::Idle, ..self }, Ok(Action::Exit))
        } else if self.phase != Phase::Idle {
            (self, Err(OutOfTurn::FrameInFlight))
        } else {
            match event {
                Event::Window { window, event: WindowEvent::Resized(size) } => {
                    if window == self.window {
                        (self.resize(size).0, Ok(self.resize(size).1))
                    } else {
                        (self, Ok(Action::Nothing))
                    }
                },
                Event::Window { .. } => (self, Ok(Action::Nothing)),
                Event::RedrawRequested(window) => {
                    if window == self.window && self.size.drawable() {
                        (Host { phase: Phase::Acquiring, ..self }, Ok(Action::Acquire))
                    } else {
                        (self, Ok(Action::Nothing))
                    }
                },
                Event::EventsCleared => (self, Ok(Action::RequestRedraw)),
                Event::Other => (self, Ok(Action::Nothing)),
            }
        }
    }

    /// The end of a frame whose image could not be acquired. A lost surface
    /// is configured again with the current size of the target, exhausted
    /// memory ends the run, and any other error only drops the frame.
    pub open spec fn give_up(self, error: SurfaceError) -> (Host, Action) {
        let idle = Host { phase: Phase::Idle, ..self };
        match error {
            SurfaceError::Lost => idle.resize(self.size),
            SurfaceError::OutOfMemory => (Host { running: false, ..idle }, Action::Exit),
            SurfaceError::Outdated => (idle, Action::Skip(error)),
            SurfaceError::Timeout => (idle, Action::Skip(error)),
        }
    }

    /// One report on the frame cycle. Each phase takes the report on the
    /// action it asked for and no other.
    pub open spec fn advance(self, report: Report) -> (Host, Result<Action, OutOfTurn>) {
        match (self.phase, report) {
            (Phase::Acquiring, Report::Acquired) => (
                Host { phase: Phase::Recording, ..self },
                Ok(Action::Record(fixed_pass())),
            ),
            (Phase::Acquiring, Report::AcquireFailed(error)) => (
                self.give_up(error).0,
                Ok(self.give_up(error).1),
            ),
            (Phase::Recording, Report::Recorded) => (
                Host { phase: Phase::Submitted, ..self },
                Ok(Action::SubmitAndPresent),
            ),
            (Phase::Submitted, Report::Presented) => (
                Host { phase: Phase::Idle, ..self },
                Ok(Action::Nothing),
            ),
            _ => (self, Err(OutOfTurn::UnexpectedReport)),
        }
    }

    /// One input, whichever kind it is of.
    pub open spec fn step(self, input: Input) -> (Host, Result<Action, OutOfTurn>) {
        match input {
            Input::Event(event) => self.dispatch(event),
            Input::Report(report) => self.advance(report),
        }
    }

    /// The host after a whole sequence of inputs, taken in order.
    pub open spec fn run(self, inputs: Seq<Input>) -> Host
        decreases inputs.len(),
    {
        if inputs.len() == 0 {
            self
        } else {
            self.run(inputs.drop_last()).step(inputs.last()).0
        }
    }

    /// What the host answered to the last of a non-empty sequence of inputs.
    pub open spec fn answer(self, inputs: Seq<Input>) -> Result<Action, OutOfTurn>
        recommends
            inputs.len() > 0,
    {
        self.run(inputs.drop_last()).step(inputs.last()).1
    }
}

} // verus!
