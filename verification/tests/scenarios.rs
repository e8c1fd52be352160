use render_host::event::{Action, Event, WindowEvent, WindowId};
use render_host::frame::{Phase, Report, SurfaceError};
use render_host::state::State;
use render_host::surface::TargetSize;
use wgpu::{CompositeAlphaMode, PresentMode, TextureFormat};

const OWN: WindowId = WindowId(1);

fn host() -> (State, Action) {
    State::new(
        OWN,
        TargetSize { width: 450, height: 400 },
        &vec![TextureFormat::Bgra8Unorm, TextureFormat::Bgra8UnormSrgb],
        &vec![PresentMode::Fifo],
        &vec![CompositeAlphaMode::Opaque],
    )
    .unwrap()
}

/// Runs one frame on a surface that hands out its image and returns every
/// action the frame asked for.
fn draw_frame(state: &mut State) -> Vec<Action> {
    let mut actions = Vec::new();
    let mut next = state.dispatch(Event::RedrawRequested(OWN)).unwrap();
    loop {
        actions.push(next);
        next = match next {
            Action::Acquire => state.advance(Report::Acquired).unwrap(),
            Action::Record(_) => state.advance(Report::Recorded).unwrap(),
            Action::SubmitAndPresent => state.advance(Report::Presented).unwrap(),
            _ => return actions,
        };
    }
}

#[test]
fn first_frame_clears_to_the_fixed_colour_and_draws_one_triangle() {
    let (mut state, first) = host();
    let pipelines = match first {
        Action::Initialize { config, pipeline } => {
            assert_eq!((config.width, config.height), (450, 400));
            assert_eq!(config.format, TextureFormat::Bgra8UnormSrgb);
            assert_eq!(pipeline.target_format, config.format);
            vec![pipeline]
        },
        other => panic!("the surface is not initialized: {:?}", other),
    };
    assert_eq!(pipelines.len(), 1);

    let actions = draw_frame(&mut state);
    assert_eq!(actions.len(), 4);
    assert_eq!(actions[0], Action::Acquire);
    assert_eq!(actions[2], Action::SubmitAndPresent);
    assert_eq!(actions[3], Action::Nothing);
    let passes: Vec<_> = actions
        .iter()
        .filter_map(|action| match action {
            Action::Record(pass) => Some(*pass),
            _ => None,
        })
        .collect();
    assert_eq!(passes.len(), 1);
    let pass = passes[0];
    assert_eq!(f64::from(pass.clear.red) / 10.0, 0.5);
    assert_eq!(f64::from(pass.clear.green) / 10.0, 0.4);
    assert_eq!(f64::from(pass.clear.blue) / 10.0, 0.9);
    assert_eq!(f64::from(pass.clear.alpha) / 10.0, 1.0);
    assert!(pass.store);
    assert_eq!(pass.vertices, 3);
    assert_eq!(pass.instances, 1);
    assert!(!actions.iter().any(|action| matches!(action, Action::Initialize { .. })));
    assert_eq!(state.phase(), Phase::Idle);
}

#[test]
fn frame_after_a_resize_uses_the_new_size() {
    let (mut state, _) = host();
    let event = Event::Window {
        window: OWN,
        event: WindowEvent::Resized(TargetSize { width: 800, height: 600 }),
    };
    match state.dispatch(event) {
        Ok(Action::Reconfigure(config)) => {
            assert_eq!((config.width, config.height), (800, 600));
            assert_eq!(config.format, TextureFormat::Bgra8UnormSrgb);
            assert_eq!(config.present_mode, PresentMode::Fifo);
            assert_eq!(config.alpha_mode, CompositeAlphaMode::Opaque);
        },
        other => panic!("the surface is not configured again: {:?}", other),
    }
    assert_eq!(state.dispatch(Event::RedrawRequested(OWN)), Ok(Action::Acquire));
    assert_eq!((state.config().width, state.config().height), (800, 600));
    assert_eq!(state.size(), TargetSize { width: 800, height: 600 });
    assert!(matches!(state.advance(Report::Acquired), Ok(Action::Record(_))));
    assert_eq!(state.advance(Report::Recorded), Ok(Action::SubmitAndPresent));
    assert_eq!(state.advance(Report::Presented), Ok(Action::Nothing));
    assert_eq!((state.config().width, state.config().height), (800, 600));
}

#[test]
fn close_request_before_the_first_redraw_ends_the_run() {
    let (mut state, _) = host();
    let close = Event::Window { window: OWN, event: WindowEvent::CloseRequested };
    assert_eq!(state.dispatch(close), Ok(Action::Exit));
    assert!(!state.is_running());
    for event in [Event::EventsCleared, Event::RedrawRequested(OWN), close, Event::Other] {
        assert_eq!(state.dispatch(event), Ok(Action::Exit));
        assert_eq!(state.phase(), Phase::Idle);
    }
    assert!(state.advance(Report::Acquired).is_err());
}

#[test]
fn close_request_between_frames_ends_the_run() {
    let (mut state, _) = host();
    assert_eq!(draw_frame(&mut state).len(), 4);
    assert_eq!(draw_frame(&mut state).len(), 4);
    let close = Event::Window { window: OWN, event: WindowEvent::CloseRequested };
    assert_eq!(state.dispatch(close), Ok(Action::Exit));
    assert_eq!(draw_frame(&mut state), vec![Action::Exit]);
    assert_eq!(state.phase(), Phase::Idle);
}

#[test]
fn run_of_many_frames_survives_transient_errors() {
    let (mut state, _) = host();
    assert_eq!(draw_frame(&mut state).len(), 4);
    assert_eq!(state.dispatch(Event::RedrawRequested(OWN)), Ok(Action::Acquire));
    assert_eq!(
        state.advance(Report::AcquireFailed(SurfaceError::Timeout)),
        Ok(Action::Skip(SurfaceError::Timeout))
    );
    assert_eq!(draw_frame(&mut state).len(), 4);
    assert_eq!(state.dispatch(Event::RedrawRequested(OWN)), Ok(Action::Acquire));
    assert!(matches!(
        state.advance(Report::AcquireFailed(SurfaceError::Lost)),
        Ok(Action::Reconfigure(_))
    ));
    assert_eq!(draw_frame(&mut state).len(), 4);
    assert_eq!(state.dispatch(Event::RedrawRequested(OWN)), Ok(Action::Acquire));
    assert_eq!(state.advance(Report::AcquireFailed(SurfaceError::OutOfMemory)), Ok(Action::Exit));
    assert_eq!(draw_frame(&mut state), vec![Action::Exit]);
}
