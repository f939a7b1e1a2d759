use gpu_vk::input::{ButtonEvent, ButtonSet, ElementState, Input};

#[test]
fn new_button_set_is_empty() {
    let buttons = ButtonSet::new();
    for button in [0, 1, 77, u32::MAX] {
        assert!(!buttons.was_button_pressed(button));
        assert!(!buttons.was_button_released(button));
        assert!(!buttons.is_button_held(button));
    }
}

#[test]
fn press_holds_and_counts_once() {
    let mut buttons = ButtonSet::new();
    buttons.button_state_changed(5, ElementState::Pressed);
    assert!(buttons.was_button_pressed(5));
    assert!(buttons.is_button_held(5));
    assert!(!buttons.was_button_released(5));
    assert!(!buttons.is_button_held(6));
    buttons.update();
    assert!(!buttons.was_button_pressed(5));
    assert!(buttons.is_button_held(5));
    // A repeat of a held key is no new press.
    buttons.button_state_changed(5, ElementState::Pressed);
    assert!(!buttons.was_button_pressed(5));
    assert!(buttons.is_button_held(5));
}

#[test]
fn release_ends_the_hold() {
    let mut buttons = ButtonSet::new();
    buttons.button_state_changed(5, ElementState::Pressed);
    buttons.button_state_changed(5, ElementState::Released);
    assert!(buttons.was_button_pressed(5));
    assert!(buttons.was_button_released(5));
    assert!(!buttons.is_button_held(5));
    buttons.update();
    assert!(!buttons.was_button_pressed(5));
    assert!(!buttons.was_button_released(5));
    assert!(!buttons.is_button_held(5));
    buttons.button_state_changed(9, ElementState::Released);
    assert!(buttons.was_button_released(9));
    assert!(!buttons.is_button_held(9));
}

#[test]
fn input_routes_events_to_keys_and_mouse_buttons() {
    let mut input = Input::new();
    assert!(input.process_button(ButtonEvent::Key { keycode: 30, state: ElementState::Pressed }));
    assert!(input.process_button(ButtonEvent::MouseButton {
        button: 1,
        state: ElementState::Pressed,
    }));
    assert!(input.process_button(ButtonEvent::CursorMoved));
    assert!(!input.process_button(ButtonEvent::Other));
    assert!(!input.process_button(ButtonEvent::UnknownKey));
    assert!(input.was_key_pressed(30));
    assert!(input.is_key_held(30));
    assert!(!input.was_key_pressed(1));
    assert!(input.was_mouse_button_pressed(1));
    assert!(input.is_mouse_button_held(1));
    assert!(!input.is_mouse_button_held(30));
    input.update();
    assert!(!input.was_key_pressed(30));
    assert!(input.is_key_held(30));
    assert!(input.is_mouse_button_held(1));
    input.key_state_changed(30, ElementState::Released);
    input.mouse_button_state_changed(1, ElementState::Released);
    assert!(input.was_key_released(30));
    assert!(!input.is_key_held(30));
    assert!(input.was_mouse_button_released(1));
    assert!(!input.is_mouse_button_held(1));
}
