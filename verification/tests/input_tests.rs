use yaffe::input::{copy_action, get_input_map, input_to_action, Actions, ControllerInput, InputMap, InputType, KeyCode};

#[test]
fn default_map_binds_keys_and_buttons() {
    let m = get_input_map();
    assert_eq!(m.get(Some(KeyCode::Return), None), Some(&Actions::Accept));
    assert_eq!(m.get(Some(KeyCode::Escape), None), Some(&Actions::Back));
    assert_eq!(m.get(Some(KeyCode::Key1), None), Some(&Actions::Info));
    assert_eq!(m.get(Some(KeyCode::Key2), None), Some(&Actions::Filter));
    assert_eq!(m.get(Some(KeyCode::Tab), None), Some(&Actions::Select));
    assert_eq!(m.get(Some(KeyCode::F1), None), Some(&Actions::ShowMenu));
    assert_eq!(m.get(Some(KeyCode::F2), None), Some(&Actions::ToggleOverlay));
    assert_eq!(m.get(None, Some(ControllerInput::ButtonSouth)), Some(&Actions::Accept));
    assert_eq!(m.get(None, Some(ControllerInput::ButtonEast)), Some(&Actions::Back));
    assert_eq!(m.get(None, Some(ControllerInput::DirectionLeft)), Some(&Actions::Left));
    assert_eq!(m.get(None, Some(ControllerInput::ButtonGuide)), Some(&Actions::ToggleOverlay));
}

#[test]
fn unbound_key_has_no_action() {
    let m = get_input_map();
    assert_eq!(m.get(Some(KeyCode::Space), None), None);
    assert_eq!(m.get(Some(KeyCode::Other(77)), None), None);
    assert_eq!(m.get(None, None), None);
}

#[test]
fn key_is_looked_up_before_button() {
    let m = get_input_map();
    // a key is given: the button is not consulted even when the key is unbound
    assert_eq!(m.get(Some(KeyCode::Space), Some(ControllerInput::ButtonSouth)), None);
    assert_eq!(m.get(Some(KeyCode::Up), Some(ControllerInput::ButtonSouth)), Some(&Actions::Up));
}

#[test]
fn later_binding_replaces_earlier() {
    let mut m = InputMap::new();
    m.insert(KeyCode::Return, ControllerInput::ButtonSouth, Actions::Accept);
    m.insert(KeyCode::Return, ControllerInput::ButtonNorth, Actions::Back);
    assert_eq!(m.get(Some(KeyCode::Return), None), Some(&Actions::Back));
    assert_eq!(m.get(None, Some(ControllerInput::ButtonSouth)), Some(&Actions::Accept));
    assert_eq!(m.get(None, Some(ControllerInput::ButtonNorth)), Some(&Actions::Back));
}

#[test]
fn input_becomes_actions_in_order() {
    let m = get_input_map();
    let keyboard = vec![
        (KeyCode::Down, None),
        (KeyCode::Other(30), Some('a')),
        (KeyCode::Back, None),
    ];
    let gamepad = vec![ControllerInput::ButtonWest];
    let actions = input_to_action(&m, &keyboard, &gamepad);
    assert_eq!(
        actions,
        vec![
            Actions::Down,
            Actions::KeyPress(InputType::Char('a')),
            Actions::KeyPress(InputType::Key(KeyCode::Back)),
            Actions::Info,
        ]
    );
}

#[test]
fn unbound_controller_input_becomes_its_number() {
    let m = InputMap::new();
    let actions = input_to_action(&m, &vec![], &vec![ControllerInput::DirectionDown]);
    assert_eq!(actions, vec![Actions::KeyPress(InputType::Char(10 as char))]);
}

#[test]
fn copy_keeps_pasted_text() {
    let a = Actions::KeyPress(InputType::Paste(String::from("hello")));
    assert_eq!(copy_action(&a), a);
}
