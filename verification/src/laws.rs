//! What holds of the host in every state and along every sequence of inputs.

use vstd::prelude::*;
use crate::event::{Action, Event, OutOfTurn, WindowEvent, WindowId};
use crate::frame::{fixed_pass, Phase, Report, SurfaceError};
use crate::host::{Host, Input};
use crate::surface::{chosen_format, TargetSize};

verus! {

/// The four inputs of a frame cycle in which the surface hands out its image.
pub open spec fn full_cycle(window: WindowId) -> Seq<Input> {
    seq![
        Input::Event(Event::RedrawRequested(window)),
        Input::Report(Report::Acquired),
        Input::Report(Report::Recorded),
        Input::Report(Report::Presented),
    ]
}

/// Where the surface reports at least one format, present mode and alpha
/// mode, setting up succeeds with a valid, running, idle host that owns the
/// given window, has the given size and is configured with the preferred
/// format and the first of the modes. The surface is initialized at once
/// exactly when the size has positive area.
pub proof fn law_startup_is_valid(
    window: WindowId,
    size: TargetSize,
    formats: Seq<wgpu::TextureFormat>,
    present_modes: Seq<wgpu::PresentMode>,
    alpha_modes: Seq<wgpu::CompositeAlphaMode>,
)
    requires
        formats.len() > 0,
        present_modes.len() > 0,
        alpha_modes.len() > 0,
    ensures
        Host::startup(window, size, formats, present_modes, alpha_modes) matches Ok(
            (host, first),
        ) && {
            &&& host.wf()
            &&& host.running
            &&& host.phase == Phase::Idle
            &&& host.window == window
            &&& host.size == size
            &&& host.config.size() == size
            &&& host.config.format == chosen_format(formats)
            &&& host.config.present_mode == present_modes[0]
            &&& host.config.alpha_mode == alpha_modes[0]
            &&& host.configured == size.drawable()
            &&& first is Initialize == size.drawable()
            &&& first is Nothing == !size.drawable()
            &&& first matches Action::Initialize { config, pipeline } ==> config == host.config
                && pipeline.target_format == host.config.format
        },
{
}

/// Applying a size twice is the same as applying it once: the second resize
/// leaves the host as the first left it, and a size of positive area is
/// handed out for the surface again, unchanged.
pub proof fn law_resize_is_idempotent(host: Host, size: TargetSize)
    ensures
        host.resize(size).0.resize(size).0 == host.resize(size).0,
        size.drawable() ==> host.resize(size).0.resize(size).1 == Action::Reconfigure(
            host.resize(size).0.config,
        ),
        !size.drawable() ==> host.resize(size).0.resize(size).1 == Action::Nothing,
{
}

/// A resize to a size of positive area leaves the configuration with
/// exactly that size, and the configuration that is handed out for the
/// surface is that one. Between frames of a running loop a resize event for
/// the owned window does just this.
pub proof fn law_resize_takes_size(host: Host, size: TargetSize)
    requires
        size.drawable(),
    ensures
        host.resize(size).0.config.size() == size,
        host.resize(size).0.size == size,
        host.resize(size).1 matches Action::Reconfigure(config) ==> config
            == host.resize(size).0.config,
        host.resize(size).1 matches Action::Initialize { config, .. } ==> config
            == host.resize(size).0.config,
        host.resize(size).1 is Reconfigure || host.resize(size).1 is Initialize,
        host.running && host.phase == Phase::Idle ==> host.dispatch(
            Event::Window { window: host.window, event: WindowEvent::Resized(size) },
        ) == (host.resize(size).0, Ok::<Action, OutOfTurn>(host.resize(size).1)),
{
}

/// A resize event without area changes nothing of the surface's
/// configuration, in whatever state it arrives and whichever window it
/// names, and asks for nothing to be applied.
pub proof fn law_resize_without_area_keeps_configuration(
    host: Host,
    window: WindowId,
    size: TargetSize,
)
    requires
        !size.drawable(),
    ensures
        ({
            let (after, answer) = host.dispatch(
                Event::Window { window, event: WindowEvent::Resized(size) },
            );
            &&& after.config == host.config
            &&& after.configured == host.configured
            &&& !(answer matches Ok(Action::Reconfigure(_)))
            &&& !(answer matches Ok(Action::Initialize { .. }))
        }),
{
}

/// A redraw request for the owned window that reaches a running loop between
/// two frames starts a frame cycle when the target has positive area, and is
/// passed over without error when it has none.
pub proof fn law_redraw_starts_or_skips_a_frame(host: Host)
    requires
        host.running,
        host.phase == Phase::Idle,
    ensures
        host.size.drawable() ==> host.dispatch(Event::RedrawRequested(host.window)) == (
            Host { phase: Phase::Acquiring, ..host },
            Ok::<Action, OutOfTurn>(Action::Acquire),
        ),
        !host.size.drawable() ==> host.dispatch(Event::RedrawRequested(host.window)) == (
            host,
            Ok::<Action, OutOfTurn>(Action::Nothing),
        ),
{
}

/// Where a redraw request starts a frame cycle and the surface hands out
/// its image, the cycle asks in turn for the image, for the one pass and for
/// submission and presentation, and leaves the host exactly as it was: idle,
/// with no image held.
pub proof fn law_full_cycle_returns_to_idle(host: Host, window: WindowId)
    requires
        host.dispatch(Event::RedrawRequested(window)).1 == Ok::<Action, OutOfTurn>(
            Action::Acquire,
        ),
    ensures
        host.answer(full_cycle(window).take(1)) == Ok::<Action, OutOfTurn>(Action::Acquire),
        host.answer(full_cycle(window).take(2)) == Ok::<Action, OutOfTurn>(
            Action::Record(fixed_pass()),
        ),
        host.answer(full_cycle(window).take(3)) == Ok::<Action, OutOfTurn>(
            Action::SubmitAndPresent,
        ),
        host.answer(full_cycle(window)) == Ok::<Action, OutOfTurn>(Action::Nothing),
        host.run(full_cycle(window)) == host,
        host.run(full_cycle(window)).phase == Phase::Idle,
        !host.run(full_cycle(window)).phase.holds_image(),
{
    let inputs = full_cycle(window);
    let s0 = inputs.take(0);
    let s1 = inputs.take(1);
    let s2 = inputs.take(2);
    let s3 = inputs.take(3);
    assert(s1.drop_last() == s0);
    assert(s2.drop_last() == s1);
    assert(s3.drop_last() == s2);
    assert(inputs.drop_last() == s3);
    assert(host.run(s0) == host);
    let h1 = host.run(s1);
    assert(h1 == Host { phase: Phase::Acquiring, ..host });
    let h2 = host.run(s2);
    assert(h2 == Host { phase: Phase::Recording, ..host });
    let h3 = host.run(s3);
    assert(h3 == Host { phase: Phase::Submitted, ..host });
}

/// When the surface is lost while its image is awaited, the answer in that
/// same step is to configure it again, with the configuration it had and
/// the size the target has then. The frame is over: the renderer is idle,
/// and no report can make it record or submit.
pub proof fn law_lost_surface_is_reconfigured(host: Host)
    requires
        host.wf(),
        host.phase == Phase::Acquiring,
    ensures
        ({
            let (after, answer) = host.advance(Report::AcquireFailed(SurfaceError::Lost));
            &&& answer == Ok::<Action, OutOfTurn>(Action::Reconfigure(host.config))
            &&& host.config.size() == host.size
            &&& after == (Host { phase: Phase::Idle, ..host })
            &&& after.wf()
            &&& forall|report: Report| #[trigger]
                after.advance(report) == (after, Err::<Action, OutOfTurn>(
                    OutOfTurn::UnexpectedReport,
                ))
        }),
{
}

/// When the image does not come in time, or the surface is outdated, the
/// frame is dropped with a note of the error and nothing else changes; the
/// next redraw request starts a new frame cycle.
pub proof fn law_transient_error_drops_the_frame(host: Host, error: SurfaceError)
    requires
        host.wf(),
        host.phase == Phase::Acquiring,
        error == SurfaceError::Timeout || error == SurfaceError::Outdated,
    ensures
        ({
            let (after, answer) = host.advance(Report::AcquireFailed(error));
            &&& answer == Ok::<Action, OutOfTurn>(Action::Skip(error))
            &&& after == (Host { phase: Phase::Idle, ..host })
            &&& after.dispatch(Event::RedrawRequested(host.window)) == (
                host,
                Ok::<Action, OutOfTurn>(Action::Acquire),
            )
        }),
{
}

/// Once the loop has terminated, no input changes the host, and no input is
/// answered with an action of the frame cycle: every event is answered with
/// `Exit` and every report is refused.
pub proof fn law_termination_is_final(host: Host, inputs: Seq<Input>)
    requires
        !host.running,
        host.phase == Phase::Idle,
    ensures
        host.run(inputs) == host,
        inputs.len() > 0 ==> !(host.answer(inputs) matches Ok(action) && action.renders()),
        inputs.len() > 0 ==> (host.answer(inputs) == Ok::<Action, OutOfTurn>(Action::Exit)
            || host.answer(inputs) == Err::<Action, OutOfTurn>(OutOfTurn::UnexpectedReport)),
    decreases inputs.len(),
{
    if inputs.len() > 0 {
        law_termination_is_final(host, inputs.drop_last());
    }
}

/// When memory runs out while an image is awaited, the loop terminates in
/// that step, and whatever arrives afterwards, no further frame is started
/// or continued.
pub proof fn law_out_of_memory_terminates(host: Host, later: Seq<Input>)
    requires
        host.phase == Phase::Acquiring,
    ensures
        ({
            let (after, answer) = host.advance(
                Report::AcquireFailed(SurfaceError::OutOfMemory),
            );
            &&& answer == Ok::<Action, OutOfTurn>(Action::Exit)
            &&& !after.running
            &&& after.phase == Phase::Idle
            &&& after.run(later) == after
            &&& later.len() > 0 ==> !(after.answer(later) matches Ok(action)
                && action.renders())
        }),
{
    let after = host.advance(Report::AcquireFailed(SurfaceError::OutOfMemory)).0;
    law_termination_is_final(after, later);
}

/// A close request for the owned window terminates the loop at whatever
/// point it is delivered, and whatever arrives afterwards, the frame
/// renderer is not invoked again.
pub proof fn law_close_request_terminates(host: Host, later: Seq<Input>)
    requires
        host.wf(),
    ensures
        ({
            let (after, answer) = host.dispatch(
                Event::Window { window: host.window, event: WindowEvent::CloseRequested },
            );
            &&& answer == Ok::<Action, OutOfTurn>(Action::Exit)
            &&& !after.running
            &&& after.phase == Phase::Idle
            &&& after.run(later) == after
            &&& later.len() > 0 ==> !(after.answer(later) matches Ok(action)
                && action.renders())
        }),
{
    let after = host.dispatch(
        Event::Window { window: host.window, event: WindowEvent::CloseRequested },
    ).0;
    law_termination_is_final(after, later);
}

/// A valid host stays valid under every input.
pub proof fn law_step_keeps_validity(host: Host, input: Input)
    requires
        host.wf(),
    ensures
        host.step(input).0.wf(),
{
}

/// A valid host stays valid along every sequence of inputs.
pub proof fn law_run_keeps_validity(host: Host, inputs: Seq<Input>)
    requires
        host.wf(),
    ensures
        host.run(inputs).wf(),
    decreases inputs.len(),
{
    if inputs.len() > 0 {
        law_run_keeps_validity(host, inputs.drop_last());
        law_step_keeps_validity(host.run(inputs.drop_last()), inputs.last());
    }
}

/// An input that is refused changes nothing.
pub proof fn law_refusal_changes_nothing(host: Host, input: Input)
    ensures
        host.step(input).1 is Err ==> host.step(input).0 == host,
{
}

/// No input changes the owned window, the pixel format or the present and
/// alpha modes; only the dimensions of the configuration ever change. So the
/// pipeline, built for the format of the first configuration, fits every
/// later one.
pub proof fn law_surface_settings_are_fixed(host: Host, inputs: Seq<Input>)
    ensures
        host.run(inputs).window == host.window,
        host.run(inputs).config.format == host.config.format,
        host.run(inputs).config.present_mode == host.config.present_mode,
        host.run(inputs).config.alpha_mode == host.config.alpha_mode,
    decreases inputs.len(),
{
    if inputs.len() > 0 {
        law_surface_settings_are_fixed(host, inputs.drop_last());
    }
}

/// What a valid host asks to be applied to the surface has positive area and
/// is the configuration it then holds, and the first configuration, with
/// which the pipeline is built, is asked for only while none has been
/// applied.
pub proof fn law_applied_configuration_has_area(host: Host, input: Input)
    requires
        host.wf(),
    ensures
        host.step(input).1 matches Ok(Action::Reconfigure(config)) ==> {
            &&& config.drawable()
            &&& config == host.step(input).0.config
            &&& host.configured
        },
        host.step(input).1 matches Ok(Action::Initialize { config, pipeline }) ==> {
            &&& config.drawable()
            &&& config == host.step(input).0.config
            &&& pipeline.target_format == config.format
            &&& !host.configured
            &&& host.step(input).0.configured
        },
        host.configured ==> host.step(input).0.configured,
{
}

/// A valid host asks for an image only when none is held, the surface is
/// configured with the size of the target, and that size has positive area.
/// It asks for the pass only on the report that the image was acquired, so
/// that the pass has an image to target and, the surface being configured, a
/// pipeline to bind. It asks for submission only while it records.
pub proof fn law_frame_actions_come_in_order(host: Host, input: Input)
    requires
        host.wf(),
    ensures
        host.step(input).1 == Ok::<Action, OutOfTurn>(Action::Acquire) ==> {
            &&& host.phase == Phase::Idle
            &&& !host.phase.holds_image()
            &&& host.configured
            &&& host.size.drawable()
            &&& host.config.size() == host.size
            &&& host.step(input).0.phase == Phase::Acquiring
        },
        host.step(input).1 is Ok && host.step(input).1->Ok_0 is Record ==> {
            &&& host.phase == Phase::Acquiring
            &&& input == Input::Report(Report::Acquired)
            &&& host.step(input).1 == Ok::<Action, OutOfTurn>(Action::Record(fixed_pass()))
            &&& host.step(input).0.phase == Phase::Recording
            &&& host.step(input).0.phase.holds_image()
            &&& host.configured
        },
        host.step(input).1 == Ok::<Action, OutOfTurn>(Action::SubmitAndPresent) ==> {
            &&& host.phase == Phase::Recording
            &&& host.step(input).0.phase == Phase::Submitted
        },
{
}

} // verus!
