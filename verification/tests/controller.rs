use life_engine::controller::{CameraController, ElementState, InputEvent, KeyCode};

fn key(state: ElementState, code: KeyCode) -> InputEvent {
    InputEvent::Keyboard { state, key: Some(code) }
}

fn flags(controller: &CameraController) -> (bool, bool, bool, bool) {
    (
        controller.is_forward_pressed(),
        controller.is_backward_pressed(),
        controller.is_left_pressed(),
        controller.is_right_pressed(),
    )
}

#[test]
fn new_controller_holds_no_key() {
    let controller = CameraController::new();
    assert_eq!(flags(&controller), (false, false, false, false));
}

#[test]
fn w_and_up_move_forward() {
    for code in [KeyCode::W, KeyCode::Up] {
        let mut controller = CameraController::new();
        assert!(controller.process_events(&key(ElementState::Pressed, code)));
        assert_eq!(flags(&controller), (true, false, false, false));
        assert!(controller.process_events(&key(ElementState::Released, code)));
        assert_eq!(flags(&controller), (false, false, false, false));
    }
}

#[test]
fn s_and_down_move_backward() {
    for code in [KeyCode::S, KeyCode::Down] {
        let mut controller = CameraController::new();
        assert!(controller.process_events(&key(ElementState::Pressed, code)));
        assert_eq!(flags(&controller), (false, true, false, false));
        assert!(controller.process_events(&key(ElementState::Released, code)));
        assert_eq!(flags(&controller), (false, false, false, false));
    }
}

#[test]
fn a_and_left_move_left() {
    for code in [KeyCode::A, KeyCode::Left] {
        let mut controller = CameraController::new();
        assert!(controller.process_events(&key(ElementState::Pressed, code)));
        assert_eq!(flags(&controller), (false, false, true, false));
        assert!(controller.process_events(&key(ElementState::Released, code)));
        assert_eq!(flags(&controller), (false, false, false, false));
    }
}

#[test]
fn d_and_right_move_right() {
    for code in [KeyCode::D, KeyCode::Right] {
        let mut controller = CameraController::new();
        assert!(controller.process_events(&key(ElementState::Pressed, code)));
        assert_eq!(flags(&controller), (false, false, false, true));
        assert!(controller.process_events(&key(ElementState::Released, code)));
        assert_eq!(flags(&controller), (false, false, false, false));
    }
}

#[test]
fn other_keys_are_not_handled() {
    let mut controller = CameraController::new();
    controller.process_events(&key(ElementState::Pressed, KeyCode::W));
    assert!(!controller.process_events(&key(ElementState::Pressed, KeyCode::Other)));
    assert!(!controller.process_events(&key(ElementState::Released, KeyCode::Other)));
    assert_eq!(flags(&controller), (true, false, false, false));
}

#[test]
fn key_events_without_a_code_are_not_handled() {
    let mut controller = CameraController::new();
    controller.process_events(&key(ElementState::Pressed, KeyCode::D));
    let event = InputEvent::Keyboard { state: ElementState::Released, key: None };
    assert!(!controller.process_events(&event));
    assert_eq!(flags(&controller), (false, false, false, true));
}

#[test]
fn other_events_are_not_handled() {
    let mut controller = CameraController::new();
    controller.process_events(&key(ElementState::Pressed, KeyCode::A));
    assert!(!controller.process_events(&InputEvent::Other));
    assert_eq!(flags(&controller), (false, false, true, false));
}

#[test]
fn keys_are_tracked_independently() {
    let mut controller = CameraController::new();
    controller.process_events(&key(ElementState::Pressed, KeyCode::W));
    controller.process_events(&key(ElementState::Pressed, KeyCode::Left));
    controller.process_events(&key(ElementState::Pressed, KeyCode::S));
    controller.process_events(&key(ElementState::Pressed, KeyCode::D));
    assert_eq!(flags(&controller), (true, true, true, true));
    controller.process_events(&key(ElementState::Released, KeyCode::Up));
    assert_eq!(flags(&controller), (false, true, true, true));
    controller.process_events(&key(ElementState::Released, KeyCode::A));
    assert_eq!(flags(&controller), (false, true, false, true));
    controller.process_events(&key(ElementState::Pressed, KeyCode::Right));
    assert_eq!(flags(&controller), (false, true, false, true));
}
