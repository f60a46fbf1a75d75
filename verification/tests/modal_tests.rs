use yaffe::data::PlatformInfo;
use yaffe::input::{Actions, InputType, KeyCode};
use yaffe::modals::{
    SettingsField, SettingsModal,
    action_to_u32, ListModal, MessageModalContent, ModalContent, PlatformDetailModal, PlatformScraperModal,
    SetRestrictedModal, VerifyRestrictedModal,
};
use yaffe::restrictions::{
    passcodes_equal, set_restricted_mode, PasscodeEquality, RestrictedMode, RestrictedPasscode, MAX_ATTEMPTS,
};
use yaffe::ui::{default_modal_action, dialog_closes, AppRequest, ModalResult};

fn passcode(digits: &[u32]) -> RestrictedPasscode {
    let mut p = RestrictedPasscode::default();
    for d in digits {
        p.add_digit(*d);
    }
    p
}

#[test]
fn default_action_confirms_and_cancels() {
    assert_eq!(default_modal_action(&Actions::Accept), ModalResult::Confirm);
    assert_eq!(default_modal_action(&Actions::Back), ModalResult::Cancel);
    assert_eq!(default_modal_action(&Actions::Up), ModalResult::Continue);
}

#[test]
fn message_modal_keeps_message() {
    let mut m = MessageModalContent::new("Unable to start game");
    assert_eq!(m.action(&Actions::Info), ModalResult::Continue);
    assert_eq!(m.action(&Actions::Accept), ModalResult::Confirm);
    assert_eq!(m.message, "Unable to start game");
}

#[test]
fn list_modal_stops_at_ends() {
    let mut m: ListModal<String> = ListModal::new(Some(String::from("Menu")));
    m.add_item(String::from("Settings"));
    m.add_item(String::from("Exit Yaffe"));
    assert_eq!(m.action(&Actions::Up), ModalResult::Continue);
    assert_eq!(m.get_selected(), "Settings");
    assert_eq!(m.action(&Actions::Down), ModalResult::Continue);
    assert_eq!(m.action(&Actions::Down), ModalResult::Continue);
    assert_eq!(m.get_selected(), "Exit Yaffe");
    assert_eq!(m.action(&Actions::Accept), ModalResult::Confirm);
    assert_eq!(m.action(&Actions::Back), ModalResult::Cancel);
}

#[test]
fn platform_scraper_wraps_selection() {
    let items = vec![
        PlatformInfo::new(1, String::from("NES"), String::from("nes.exe"), String::new()),
        PlatformInfo::new(2, String::from("SNES"), String::from("snes.exe"), String::new()),
    ];
    let mut m = PlatformScraperModal::new(items);
    assert_eq!(m.action(&Actions::Up), ModalResult::Continue);
    assert_eq!(m.list.get_selected().id, 2);
    assert_eq!(m.action(&Actions::Accept), ModalResult::Confirm);
}

#[test]
fn action_numbers() {
    assert_eq!(action_to_u32(&Actions::Info), 1);
    assert_eq!(action_to_u32(&Actions::Accept), 2);
    assert_eq!(action_to_u32(&Actions::Back), 4);
    assert_eq!(action_to_u32(&Actions::Filter), 9);
}

#[test]
fn passcode_comparison() {
    assert_eq!(passcodes_equal(&passcode(&[1, 2]), &passcode(&[1, 2, 3])), PasscodeEquality::Incomplete);
    assert_eq!(passcodes_equal(&passcode(&[1, 2, 4]), &passcode(&[1, 2, 3])), PasscodeEquality::Lengths);
    assert_eq!(passcodes_equal(&passcode(&[1, 2, 3]), &passcode(&[1, 2, 3])), PasscodeEquality::Total);
}

#[test]
fn passcode_ignores_digits_beyond_capacity() {
    let p = passcode(&[1, 2, 3, 4, 5, 6, 7, 8, 9, 10]);
    assert_eq!(p.len(), 8);
    assert_eq!(passcodes_equal(&p, &passcode(&[1, 2, 3, 4, 5, 6, 7, 8])), PasscodeEquality::Total);
}

#[test]
fn set_passcode_records_digits() {
    let mut m = SetRestrictedModal::new();
    assert_eq!(m.action(&Actions::Up), ModalResult::Continue);
    assert_eq!(m.action(&Actions::KeyPress(InputType::Char('7'))), ModalResult::Continue);
    assert_eq!(m.action(&Actions::KeyPress(InputType::Key(KeyCode::Home))), ModalResult::Continue);
    assert_eq!(m.action(&Actions::Accept), ModalResult::Confirm);
    let p = m.get_passcode();
    assert_eq!(p.len(), 2);
    assert_eq!(passcodes_equal(&p, &passcode(&[5, '7' as u32])), PasscodeEquality::Total);
}

#[test]
fn correct_passcode_confirms() {
    let mut m = VerifyRestrictedModal::new(passcode(&[5, 6, 7]), AppRequest::StartGame);
    assert_eq!(m.action(&Actions::Up), ModalResult::Continue);
    assert_eq!(m.action(&Actions::Down), ModalResult::Continue);
    assert_eq!(m.action(&Actions::Left), ModalResult::Confirm);
    assert_eq!(m.attempts, 0);
}

#[test]
fn wrong_passcodes_use_attempts_then_cancel() {
    let mut m = VerifyRestrictedModal::new(passcode(&[5]), AppRequest::StartGame);
    for attempt in 1..=MAX_ATTEMPTS {
        assert_eq!(m.action(&Actions::Down), ModalResult::Continue);
        assert_eq!(m.attempts, attempt);
        assert_eq!(m.pass.len(), 0);
    }
    assert_eq!(m.action(&Actions::Down), ModalResult::Cancel);
    assert_eq!(m.attempts, MAX_ATTEMPTS + 1);
}

#[test]
fn verify_passcode_back_cancels() {
    let mut m = VerifyRestrictedModal::new(passcode(&[5, 6]), AppRequest::StartGame);
    assert_eq!(m.action(&Actions::Back), ModalResult::Cancel);
    assert_eq!(m.action(&Actions::KeyPress(InputType::Paste(String::from("56")))), ModalResult::Continue);
    assert_eq!(m.pass.len(), 0);
}

#[test]
fn platform_detail_edits_focused_field() {
    let mut m = PlatformDetailModal::from_existing(4, String::from("NES"), String::from("nes.exe"), String::from("-f"));
    assert_eq!(m.value_of("Name"), Some("NES"));
    assert_eq!(m.action(&Actions::Down), ModalResult::Continue);
    assert_eq!(m.action(&Actions::Down), ModalResult::Continue);
    assert_eq!(m.action(&Actions::KeyPress(InputType::Char('x'))), ModalResult::Continue);
    assert_eq!(m.value_of("Executable"), Some("xnes.exe"));
    assert_eq!(m.value_of("Args"), Some("-f"));
    assert_eq!(m.value_of("Other"), None);
    assert_eq!(m.action(&Actions::Accept), ModalResult::Confirm);
    assert_eq!(m.id, 4);
}

#[test]
fn emulator_dialog_starts_empty() {
    let m = PlatformDetailModal::emulator();
    assert_eq!(m.value_of("Name"), Some(""));
    assert_eq!(m.value_of("Executable"), Some(""));
    assert_eq!(m.value_of("Args"), Some(""));
    assert_eq!(m.id, 0);
}

#[test]
fn settings_dialog_lists_settings_by_name() {
    let settings = vec![
        (String::from("items_per_row"), String::from("4")),
        (String::from("font_color"), String::from("1,1,1,1")),
    ];
    let mut m = SettingsModal::new(true, settings);
    assert_eq!(m.names, vec!["run_at_startup", "font_color", "items_per_row"]);
    assert_eq!(m.value_of("run_at_startup"), Some("true"));
    assert_eq!(m.value_of("items_per_row"), Some("4"));
    assert_eq!(m.action(&Actions::Down), ModalResult::Continue);
    assert_eq!(m.action(&Actions::KeyPress(InputType::Key(KeyCode::Space))), ModalResult::Continue);
    assert_eq!(m.value_of("run_at_startup"), Some("false"));
    assert_eq!(m.action(&Actions::Down), ModalResult::Continue);
    assert_eq!(m.action(&Actions::KeyPress(InputType::Key(KeyCode::End))), ModalResult::Continue);
    assert_eq!(m.action(&Actions::KeyPress(InputType::Char('0'))), ModalResult::Continue);
    assert_eq!(m.value_of("font_color"), Some("1,1,1,10"));
    assert_eq!(m.value_of("missing"), None);
    assert_eq!(m.action(&Actions::Back), ModalResult::Cancel);
}

#[test]
fn restricted_mode_turns_on_and_off_with_the_same_passcode() {
    let on = set_restricted_mode(RestrictedMode::Off, passcode(&[1, 2, 3]));
    match on {
        RestrictedMode::On(p) => assert_eq!(passcodes_equal(&p, &passcode(&[1, 2, 3])), PasscodeEquality::Total),
        RestrictedMode::Off => panic!("restricted mode stayed off"),
    }
    match set_restricted_mode(on, passcode(&[1, 2, 4])) {
        RestrictedMode::On(p) => assert_eq!(passcodes_equal(&p, &passcode(&[1, 2, 3])), PasscodeEquality::Total),
        RestrictedMode::Off => panic!("a wrong passcode turned restricted mode off"),
    }
    assert!(matches!(set_restricted_mode(on, passcode(&[1, 2])), RestrictedMode::On(_)));
    assert!(matches!(set_restricted_mode(on, passcode(&[1, 2, 3])), RestrictedMode::Off));
}

#[test]
fn verified_passcode_hands_back_the_guarded_request() {
    let mut m = VerifyRestrictedModal::new(passcode(&[5, 6]), AppRequest::PlatformInfo);
    assert_eq!(m.run_action(), AppRequest::PlatformInfo);
    assert_eq!(m.action(&Actions::Up), ModalResult::Continue);
    let result = m.action(&Actions::Down);
    assert_eq!(result, ModalResult::Confirm);
    assert_eq!(m.close(result), Some(AppRequest::PlatformInfo));
    let m = VerifyRestrictedModal::new(passcode(&[5, 6]), AppRequest::StartGame);
    assert_eq!(m.close(ModalResult::Cancel), None);
}

#[test]
fn moving_focus_sets_the_fields_focus() {
    let mut m = PlatformDetailModal::emulator();
    assert!(m.fields.iter().all(|f| !f.focused));
    m.action(&Actions::Down);
    assert_eq!(m.fields.iter().map(|f| f.focused).collect::<Vec<bool>>(), vec![true, false, false]);
    m.action(&Actions::Down);
    assert_eq!(m.fields.iter().map(|f| f.focused).collect::<Vec<bool>>(), vec![false, true, false]);
    m.action(&Actions::Up);
    assert_eq!(m.fields.iter().map(|f| f.focused).collect::<Vec<bool>>(), vec![true, false, false]);
    // typing keeps focus where it is
    m.action(&Actions::KeyPress(InputType::Char('x')));
    assert!(m.fields[0].focused);

    let mut s = SettingsModal::new(false, vec![(String::from("a"), String::from("1"))]);
    s.action(&Actions::Down);
    assert!(matches!(&s.fields[0], SettingsField::Check(c) if c.focused));
    s.action(&Actions::Down);
    assert!(matches!(&s.fields[0], SettingsField::Check(c) if !c.focused));
    assert!(matches!(&s.fields[1], SettingsField::Text(t) if t.focused));
    // moving past the last field leaves none focused
    s.action(&Actions::Down);
    assert!(matches!(&s.fields[1], SettingsField::Text(t) if !t.focused));
}

#[test]
fn answers_that_close_dialogs() {
    assert!(dialog_closes(ModalResult::Confirm));
    assert!(dialog_closes(ModalResult::Cancel));
    assert!(!dialog_closes(ModalResult::Continue));
}
