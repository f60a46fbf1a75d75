use yaffe::job_system::SentKeys;
use yaffe::assets::{cache_evictions, get_asset_path, SlotInfo};
use yaffe::launch::{launch_arguments, split_spaces};
use yaffe::overlay::{OverlayInput, OverlayState, ProcessStatus};
use yaffe::ui::ModalResult;

fn slot(loaded: bool, data_length: u64, last_request: u64) -> SlotInfo {
    SlotInfo { loaded, data_length, last_request }
}

#[test]
fn idle_images_leave_the_cache() {
    let slots = vec![slot(true, 10, 50_000), slot(true, 10, 10_000), slot(true, 10, 5_000), slot(false, 10, 0)];
    // the second slot is idle but becomes the oldest so far, the third is older still
    assert_eq!(cache_evictions(&slots, 100_000, 1000), Vec::<usize>::new());
    let slots = vec![slot(true, 10, 10_000), slot(true, 10, 20_000), slot(true, 10, 90_000)];
    assert_eq!(cache_evictions(&slots, 100_000, 1000), vec![1]);
}

#[test]
fn oldest_image_leaves_when_over_limit() {
    let slots = vec![slot(true, 600, 95_000), slot(true, 600, 90_000), slot(false, 5000, 1)];
    assert_eq!(cache_evictions(&slots, 100_000, 1000), vec![1]);
    assert_eq!(cache_evictions(&slots, 100_000, 1200), Vec::<usize>::new());
}

#[test]
fn asset_paths_are_cleaned() {
    assert_eq!(
        get_asset_path("N:E/S", "Mario?"),
        std::path::Path::new("./Assets").join("NES").join("Mario.jpg")
    );
}

#[test]
fn arguments_split_at_spaces() {
    assert_eq!(split_spaces("-f  -x"), vec!["-f", "", "-x"]);
    assert_eq!(split_spaces(""), vec![""]);
    assert_eq!(split_spaces("a "), vec!["a", ""]);
    for s in ["a b c", " lead", "", "x"] {
        let expected: Vec<String> = s.split(' ').map(String::from).collect();
        assert_eq!(split_spaces(s), expected);
    }
    assert_eq!(launch_arguments(true, String::from("rom.nes"), "-f -v"), vec!["rom.nes", "-f", "-v"]);
    assert_eq!(launch_arguments(true, String::from("rom.nes"), ""), vec!["rom.nes"]);
    assert_eq!(launch_arguments(false, String::from("ignored"), ""), vec![""]);
    assert_eq!(launch_arguments(false, String::from("ignored"), "--app"), vec!["--app"]);
}

#[test]
fn overlay_follows_the_game() {
    let mut o = OverlayState::new();
    assert_eq!(o.on_input(true), OverlayInput::Ignored);
    assert!(!o.showing);
    o.set_process();
    assert_eq!(o.on_input(false), OverlayInput::Ignored);
    assert_eq!(o.on_input(true), OverlayInput::Toggled);
    assert!(o.showing);
    assert_eq!(o.on_input(false), OverlayInput::Modal);
    assert!(!o.on_modal_result(ModalResult::Continue));
    assert!(o.on_modal_result(ModalResult::Confirm));
    assert!(!o.showing);
    assert!(!o.has_process);
    o.set_process();
    assert!(o.process_is_running(ProcessStatus::Running));
    assert!(!o.process_is_running(ProcessStatus::Unknown));
    assert!(o.has_process);
    assert!(!o.process_is_running(ProcessStatus::Exited));
    assert!(!o.has_process);
}

#[test]
fn overlay_key_shows_the_overlay() {
    let mut o = OverlayState::new();
    o.set_process();
    o.on_input(true);
    o.on_input(true);
    assert!(o.showing);
    o.toggle_visibility();
    assert!(o.showing);
}

#[test]
fn game_ended_in_the_background_hides_the_overlay() {
    let mut o = OverlayState::new();
    o.set_process();
    assert_eq!(o.on_input(true), OverlayInput::Toggled);
    assert!(o.showing);
    assert!(!o.process_is_running(ProcessStatus::Unknown));
    assert!(o.showing);
    assert!(!o.process_is_running(ProcessStatus::Exited));
    assert!(!o.showing);
    assert!(!o.has_process);
}

#[test]
fn jobs_sent_under_a_key_are_remembered() {
    let mut keys = SentKeys::new();
    assert!(!keys.already_sent(String::from("boxart/zelda")));
    keys.insert(String::from("boxart/zelda"));
    assert!(keys.already_sent(String::from("boxart/zelda")));
    assert!(!keys.already_sent(String::from("boxart/mario")));
    keys.insert(String::from("boxart/zelda"));
    assert!(keys.already_sent(String::from("boxart/zelda")));
}
