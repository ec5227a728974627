use minigw::core_loop::{decide, LoopAction, LoopEvent};
use minigw::input::{mb_to_idx, to_debug_ui_button, MAX_BUTTONS, MAX_KEYS};
use minigw::{CursorMode, DebugUiButton, Input, MouseButton, ESCAPE_KEY};

#[test]
fn key_down_only_on_the_first_frame() {
    let mut input = Input::new();
    assert!(!input.key(5));
    input.set_key(5, true);
    assert!(input.key(5));
    assert!(input.key_down(5));
    input.update();
    assert!(input.key(5));
    assert!(!input.key_down(5));
    input.set_key(5, false);
    assert!(!input.key(5));
    assert!(!input.key_down(5));
}

#[test]
fn mouse_buttons_are_tracked_apart_from_keys() {
    let mut input = Input::new();
    input.set_mouse_button(MouseButton::Left, true);
    assert!(input.mouse_button(MouseButton::Left));
    assert!(input.mouse_button_down(MouseButton::Left));
    assert!(!input.mouse_button(MouseButton::Right));
    assert!(!input.key(mb_to_idx(MouseButton::Left)));
    input.update();
    assert!(input.mouse_button(MouseButton::Left));
    assert!(!input.mouse_button_down(MouseButton::Left));
}

#[test]
fn button_slots() {
    assert_eq!(mb_to_idx(MouseButton::Right), 0);
    assert_eq!(mb_to_idx(MouseButton::Middle), 1);
    assert_eq!(mb_to_idx(MouseButton::Left), 2);
    assert_eq!(mb_to_idx(MouseButton::Other(4)), 7);
    assert_eq!(MAX_BUTTONS, 32);
    assert_eq!(MAX_KEYS, 512);
}

#[test]
fn debug_ui_buttons() {
    assert_eq!(to_debug_ui_button(MouseButton::Left), DebugUiButton::Left);
    assert_eq!(to_debug_ui_button(MouseButton::Other(1)), DebugUiButton::Extra1);
    assert_eq!(to_debug_ui_button(MouseButton::Other(2)), DebugUiButton::Extra2);
}

#[test]
fn cursor_mode_toggles() {
    let mut input = Input::new();
    assert_eq!(input.get_cursor_mode(), CursorMode::FREE);
    assert_eq!(input.toggle_cursor_mode(), CursorMode::LOCKED);
    assert_eq!(input.get_cursor_mode(), CursorMode::LOCKED);
    assert_eq!(input.toggle_cursor_mode(), CursorMode::FREE);
    input.set_cursor_mode(CursorMode::LOCKED);
    assert_eq!(input.get_cursor_mode(), CursorMode::LOCKED);
}

#[test]
fn mouse_position() {
    let mut input = Input::new();
    assert_eq!(input.mouse_pos(), (0, 0));
    input.set_mouse_pos((-3, 40));
    assert_eq!(input.mouse_pos(), (-3, 40));
}

#[test]
fn loop_decisions() {
    assert_eq!(decide(LoopEvent::CloseRequested), LoopAction::Exit);
    assert_eq!(decide(LoopEvent::Resized(0, 300)), LoopAction::Resize(1, 300));
    let esc = LoopEvent::Key { key_code: Some(ESCAPE_KEY), pressed: true };
    assert_eq!(decide(esc), LoopAction::Exit);
    let esc_up = LoopEvent::Key { key_code: Some(ESCAPE_KEY), pressed: false };
    assert_eq!(decide(esc_up), LoopAction::SetKey(ESCAPE_KEY, false));
    assert_eq!(decide(LoopEvent::Key { key_code: Some(12), pressed: true }), LoopAction::SetKey(12, true));
    assert_eq!(decide(LoopEvent::Key { key_code: None, pressed: true }), LoopAction::Nothing);
    assert_eq!(decide(LoopEvent::Key { key_code: Some(600), pressed: true }), LoopAction::Nothing);
    let m = LoopEvent::MouseInput { button: MouseButton::Middle, pressed: true };
    assert_eq!(decide(m), LoopAction::SetMouseButton(MouseButton::Middle, true));
    let far = LoopEvent::MouseInput { button: MouseButton::Other(100), pressed: true };
    assert_eq!(decide(far), LoopAction::Nothing);
    assert_eq!(decide(LoopEvent::CursorMoved(4, 5)), LoopAction::SetMousePos(4, 5));
    assert_eq!(decide(LoopEvent::EventsCleared), LoopAction::RequestRedraw);
    assert_eq!(decide(LoopEvent::RedrawRequested), LoopAction::RenderFrame);
    assert_eq!(decide(LoopEvent::Other), LoopAction::Nothing);
}
