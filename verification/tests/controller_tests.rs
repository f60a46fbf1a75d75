use yaffe::controller::{
    check_user_index, XInput, XInputError, XInputGamepadEx, CONTROLLER_A, CONTROLLER_B, CONTROLLER_DOWN,
    CONTROLLER_DPAD_UP, CONTROLLER_LEFT, CONTROLLER_RIGHT, CONTROLLER_START, CONTROLLER_UP, ERROR_DEVICE_NOT_CONNECTED,
    ERROR_SUCCESS,
};
use yaffe::input::ControllerInput;

fn reading(buttons: u16, x: i16, y: i16) -> XInputGamepadEx {
    let mut g = XInputGamepadEx::default();
    g.w_buttons = buttons;
    g.s_thumb_lx = x;
    g.s_thumb_ly = y;
    g
}

#[test]
fn user_index_must_name_a_controller() {
    assert!(check_user_index(0).is_ok());
    assert!(check_user_index(3).is_ok());
    assert!(matches!(check_user_index(4), Err(XInputError::InvalidControllerID)));
}

#[test]
fn recording_states() {
    let mut x = XInput::new(0);
    assert!(x.record_state(ERROR_SUCCESS, reading(CONTROLLER_A, 0, 0)).is_ok());
    assert_eq!(x.current_state.w_buttons, CONTROLLER_A);
    assert!(matches!(x.record_state(ERROR_DEVICE_NOT_CONNECTED, reading(0, 0, 0)), Err(XInputError::DeviceNotConnected)));
    assert!(matches!(x.record_state(5, reading(0, 0, 0)), Err(XInputError::UnknownError(5))));
    assert_eq!(x.current_state.w_buttons, CONTROLLER_A);
    assert!(x.record_state(ERROR_SUCCESS, reading(CONTROLLER_A | CONTROLLER_B, 0, 0)).is_ok());
    assert_eq!(x.previous_state.w_buttons, CONTROLLER_A);
    assert!(x.is_pressed(CONTROLLER_B));
    assert!(!x.is_pressed(CONTROLLER_A));
}

#[test]
fn stick_directions_need_the_dead_zone() {
    let mut x = XInput::new(0);
    x.record_state(ERROR_SUCCESS, reading(0, 5000, 5000)).ok();
    assert!(!x.stick_is_pressed(CONTROLLER_RIGHT));
    x.record_state(ERROR_SUCCESS, reading(0, -20000, 1000)).ok();
    assert!(x.stick_is_pressed(CONTROLLER_LEFT));
    assert!(!x.stick_is_pressed(CONTROLLER_UP));
    x.record_state(ERROR_SUCCESS, reading(0, 100, -30000)).ok();
    assert!(x.stick_is_pressed(CONTROLLER_DOWN));
}

#[test]
fn actions_wait_for_the_repeat_delay() {
    let mut x = XInput::new(1000);
    x.record_state(ERROR_SUCCESS, reading(CONTROLLER_START | CONTROLLER_DPAD_UP, 0, 20000)).ok();
    // too soon after the last input
    assert_eq!(x.get_actions(1050), Vec::<u16>::new());
    assert_eq!(x.get_actions(1200), vec![CONTROLLER_DPAD_UP, CONTROLLER_START, CONTROLLER_UP]);
    assert_eq!(x.last_button_time, 1200);
    assert_eq!(x.last_stick_time, 1200);
    // the buttons are still held: only the stick repeats
    x.record_state(ERROR_SUCCESS, reading(CONTROLLER_START | CONTROLLER_DPAD_UP, 0, 20000)).ok();
    assert_eq!(x.get_actions(1400), vec![CONTROLLER_UP]);
    assert_eq!(x.last_button_time, 1200);
}

#[test]
fn gamepad_inputs() {
    let mut x = XInput::new(0);
    x.record_state(ERROR_SUCCESS, reading(CONTROLLER_A | CONTROLLER_START, -30000, 0)).ok();
    assert_eq!(
        x.get_gamepad(500),
        vec![ControllerInput::ButtonStart, ControllerInput::ButtonSouth, ControllerInput::DirectionLeft]
    );
    assert_eq!(x.get_gamepad(550), vec![]);
    x.record_state(ERROR_SUCCESS, reading(0, 0, 0)).ok();
    assert_eq!(x.get_gamepad(700), vec![]);
    assert_eq!(x.last_stick_time, 500);
}
