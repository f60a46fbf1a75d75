use yaffe::controls::{CheckBox, Container, Control, Image, InputControl, List, ListItem, TextBox};
use yaffe::input::{Actions, InputType, KeyCode};
use yaffe::plugin::PathType;

fn key(k: KeyCode) -> Actions {
    Actions::KeyPress(InputType::Key(k))
}

fn typed(c: char) -> Actions {
    Actions::KeyPress(InputType::Char(c))
}

#[test]
fn text_box_typing_inserts_at_caret() {
    let mut t = TextBox::from_str(String::from("Name"), "");
    t.action(&typed('a'));
    t.action(&typed('c'));
    t.action(&Actions::Left);
    t.action(&typed('b'));
    assert_eq!(t.value(), "abc");
    assert_eq!(t.caret, 2);
    assert_eq!(t.label, "Name");
}

#[test]
fn text_box_backspace_and_delete() {
    let mut t = TextBox::new(String::from("L"), String::from("hello"));
    t.action(&key(KeyCode::End));
    assert_eq!(t.caret, 5);
    t.action(&key(KeyCode::Back));
    assert_eq!(t.value(), "hell");
    assert_eq!(t.caret, 4);
    t.action(&key(KeyCode::Home));
    assert_eq!(t.caret, 0);
    t.action(&key(KeyCode::Delete));
    assert_eq!(t.value(), "ell");
    assert_eq!(t.caret, 0);
    // nothing before the caret
    t.action(&key(KeyCode::Back));
    assert_eq!(t.value(), "ell");
}

#[test]
fn text_box_delete_at_end_does_nothing() {
    let mut t = TextBox::new(String::from("L"), String::from("ab"));
    t.action(&key(KeyCode::End));
    t.action(&key(KeyCode::Delete));
    assert_eq!(t.value(), "ab");
    assert_eq!(t.caret, 2);
}

#[test]
fn text_box_paste_moves_caret_past_bytes() {
    let mut t = TextBox::new(String::from("L"), String::from("xy"));
    t.action(&Actions::Right);
    t.action(&Actions::KeyPress(InputType::Paste(String::from("héllo"))));
    assert_eq!(t.value(), "xhélloy");
    assert_eq!(t.caret, 7);
}

#[test]
fn text_box_caret_stays_in_text() {
    let mut t = TextBox::new(String::from("L"), String::from("ab"));
    t.action(&Actions::Left);
    assert_eq!(t.caret, 0);
    t.action(&Actions::Right);
    t.action(&Actions::Right);
    t.action(&Actions::Right);
    assert_eq!(t.caret, 2);
}

#[test]
fn text_box_type_then_backspace_restores() {
    let mut t = TextBox::new(String::from("L"), String::from("abc"));
    t.action(&Actions::Right);
    t.action(&typed('z'));
    assert_eq!(t.value(), "azbc");
    t.action(&key(KeyCode::Back));
    assert_eq!(t.value(), "abc");
    assert_eq!(t.caret, 1);
}

#[test]
fn text_box_other_keys_ignored() {
    let mut t = TextBox::new(String::from("L"), String::from("ab"));
    t.action(&key(KeyCode::Space));
    t.action(&Actions::Accept);
    assert_eq!(t.value(), "ab");
    assert_eq!(t.caret, 0);
    t.set_focused(true);
    assert!(t.focused);
}

#[test]
fn check_box_toggles_on_space() {
    let mut c = CheckBox::new(String::from("run_at_startup"), false);
    assert_eq!(c.value(), "false");
    c.action(&key(KeyCode::Space));
    assert_eq!(c.value(), "true");
    c.action(&Actions::Accept);
    assert!(c.checked);
    c.action(&key(KeyCode::Space));
    assert!(!c.checked);
}

#[test]
fn image_ignores_actions() {
    let mut i = Image::new(PathType::Url(std::path::PathBuf::from("a.png")));
    i.action(&Actions::Accept);
    match i.image {
        PathType::Url(p) => assert_eq!(p, std::path::PathBuf::from("a.png")),
        PathType::File(_) => panic!("changed"),
    }
}

#[test]
fn list_wraps_around() {
    let mut l = List::new(vec![String::from("a"), String::from("b"), String::from("c")]);
    assert_eq!(l.get_selected(), "a");
    assert!(l.update(&Actions::Up));
    assert_eq!(l.get_selected(), "c");
    assert!(l.update(&Actions::Down));
    assert_eq!(l.get_selected(), "a");
    assert!(l.update(&Actions::Down));
    assert_eq!(l.index, 1);
    assert!(!l.update(&Actions::Left));
    assert_eq!(l.index, 1);
}

#[test]
fn string_list_item_displays_itself() {
    assert_eq!(String::from("Settings").to_display(), "Settings");
}

#[test]
fn container_moves_focus_between_fields() {
    let mut c = Container::new();
    c.add_field("Name");
    c.add();
    c.add_field("Args");
    assert_eq!(c.child_count(), 3);
    c.move_focus(true);
    assert_eq!(c.focus_index, Some(0));
    c.move_focus(true);
    assert_eq!(c.focus_index, Some(2));
    c.move_focus(true);
    assert_eq!(c.focus_index, None);
    c.move_focus(false);
    assert_eq!(c.focus_index, Some(2));
    c.move_focus(false);
    assert_eq!(c.focus_index, Some(0));
    // backward from the first field wraps to the last one
    c.move_focus(false);
    assert_eq!(c.focus_index, Some(2));
}

#[test]
fn container_finds_fields_by_tag() {
    let mut c = Container::new();
    c.add_field("Name");
    c.add_field("Args");
    c.add_field("Name");
    assert_eq!(c.by_tag("Args"), Some(1));
    assert_eq!(c.by_tag("Name"), Some(2));
    assert_eq!(c.by_tag("Other"), None);
}

#[test]
fn container_sends_other_actions_to_focus() {
    let mut c = Container::new();
    c.add_field("Name");
    assert_eq!(c.action(&Actions::Accept), None);
    assert_eq!(c.action(&Actions::Down), None);
    assert_eq!(c.focus_index, Some(0));
    assert_eq!(c.action(&Actions::Left), Some(0));
}
