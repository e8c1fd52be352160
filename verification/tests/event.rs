use render_host::event::{Key, KeyState, WindowEvent};
use render_host::surface::TargetSize;

#[test]
fn close_request_and_pressed_escape_ask_to_exit() {
    assert!(WindowEvent::CloseRequested.is_exit_request());
    let pressed = WindowEvent::KeyboardInput { state: KeyState::Pressed, key: Some(Key::Escape) };
    assert!(pressed.is_exit_request());
}

#[test]
fn no_other_window_event_asks_to_exit() {
    for event in [
        WindowEvent::KeyboardInput { state: KeyState::Released, key: Some(Key::Escape) },
        WindowEvent::KeyboardInput { state: KeyState::Pressed, key: Some(Key::Other) },
        WindowEvent::KeyboardInput { state: KeyState::Released, key: Some(Key::Other) },
        WindowEvent::KeyboardInput { state: KeyState::Pressed, key: None },
        WindowEvent::KeyboardInput { state: KeyState::Released, key: None },
        WindowEvent::Resized(TargetSize { width: 800, height: 600 }),
        WindowEvent::Resized(TargetSize { width: 0, height: 0 }),
        WindowEvent::Other,
    ] {
        assert!(!event.is_exit_request());
    }
}
