use yaffe::input::Actions;
use yaffe::library::{assemble_platforms, name_less, refresh_executable, sort_by_name};
use yaffe::menu::{menu_choice, menu_items, menu_text, route_input, search_outcome, InputRoute, MenuChoice, SearchOutcome};
use yaffe::restrictions::{RestrictedMode, RestrictedPasscode};
use yaffe::data::{GameInfo, PlatformInfo};
use yaffe::files::{clean_file_name, is_allowed_file_type, sanitize_file};
use yaffe::plugin::{load_plugin_items, LoadedItems, NavigationAction, PathType, PluginNavigation, YaffePluginItem};
use yaffe::state::{Executable, GroupType, Platform, PlatformType, Rating, Tile, TileGroup, YaffeState};
use yaffe::text::{is_whitespace, str_eq};
use yaffe::ui::{FocusChange, WidgetId, WidgetTree, DeferredAction};

fn item(name: &str, restricted: bool) -> YaffePluginItem {
    YaffePluginItem::new(
        String::from(name),
        format!("{}.exe", name),
        PathType::Url(std::path::PathBuf::from("thumb.png")),
        restricted,
        String::from("desc"),
    )
}

#[test]
fn rating_codes_and_names() {
    assert_eq!(Rating::Mature.to_i64(), 3);
    assert_eq!(Rating::from_i64(4), Some(Rating::AdultOnly));
    assert_eq!(Rating::from_i64(6), None);
    assert_eq!(Rating::Teen.to_display(), "T - Teen");
    assert_eq!(Rating::from_name("E10+ - Everyone 10+"), Some(Rating::Everyone10));
    assert_eq!(Rating::from_name("Teen"), None);
    for r in [Rating::Everyone, Rating::Everyone10, Rating::Teen, Rating::Mature, Rating::AdultOnly, Rating::NotRated] {
        assert_eq!(Rating::from_i64(r.to_i64()), Some(r));
        assert_eq!(Rating::from_name(&r.to_display()), Some(r));
    }
}

#[test]
fn game_info_stores_rating_number() {
    let g = GameInfo::new(
        7,
        String::from("Zelda"),
        String::from("A quest"),
        1,
        String::from("E - Everyone"),
        String::from("1986"),
        String::from("zelda.nes"),
        2,
    );
    assert_eq!(g.rating, 0);
    assert_eq!(g.platform(), 2);
    assert_eq!(g.lastrun, 0);
}

#[test]
fn tiles_of_games_and_plugin_items() {
    let g = GameInfo::new(
        1,
        String::from("Metroid"),
        String::new(),
        300,
        String::from("T - Teen"),
        String::new(),
        String::from("metroid.nes"),
        2,
    );
    let t = Tile::new_game(&g, 3, std::path::PathBuf::from("boxart.jpg"));
    assert_eq!(t.name, "Metroid");
    assert_eq!(t.rating, "T - Teen");
    assert_eq!(t.players, 44);
    assert_eq!(t.platform_index, 3);

    let p = Tile::plugin_item(5, item("Show", true));
    assert_eq!(p.rating, "Restricted");
    assert_eq!(p.file, "Show.exe");
    assert_eq!(p.players, 1);
    let e = Executable::plugin_item(5, item("Show", false));
    assert_eq!(e.rating, Rating::Everyone);
}

#[test]
fn groups_and_platforms() {
    let g = TileGroup::plugin(2, String::from("Videos"));
    assert_eq!(g.kind, GroupType::Plugin);
    assert_eq!(g.get_plugin(), Some(2));
    assert_eq!(TileGroup::new(3, String::from("NES")).get_plugin(), None);
    assert_eq!(TileGroup::new(3, String::from("NES")).get_rom_path(), std::path::Path::new("./Roms").join("NES"));
    let p = Platform::recents(String::from("Recent"));
    assert_eq!(p.kind, PlatformType::Recents);
    assert_eq!(p.get_plugin(), None);
    assert_eq!(Platform::new(4, String::from("SNES")).id, Some(4));
}

#[test]
fn recent_games_keep_order_and_known_platforms() {
    let map = vec![TileGroup::recents(String::from("Recent")), TileGroup::new(2, String::from("NES")), TileGroup::new(5, String::from("SNES"))];
    let game = |name: &str, platform: i64| {
        GameInfo::new(1, String::from(name), String::new(), 1, String::from("Not Rated"), String::new(), String::new(), platform)
    };
    let rows = vec![
        (game("A", 5), std::path::PathBuf::from("a.jpg")),
        (game("B", 9), std::path::PathBuf::from("b.jpg")),
        (game("C", 2), std::path::PathBuf::from("c.jpg")),
    ];
    let recent = GameInfo::get_recent(rows, &map);
    assert_eq!(recent.len(), 2);
    assert_eq!(recent[0].name, "A");
    assert_eq!(recent[0].platform_index, 2);
    assert_eq!(recent[1].name, "C");
    assert_eq!(recent[1].platform_index, 1);
}

#[test]
fn platform_info_fields() {
    let p = PlatformInfo::new(3, String::from("NES"), String::from("nes.exe"), String::from("-f"));
    assert_eq!(p.platform, "NES");
    assert_eq!(p.args, "-f");
}

#[test]
fn file_names() {
    assert_eq!(sanitize_file("a:b/c?d"), "abcd");
    assert!(is_allowed_file_type(Some("nes")));
    assert!(!is_allowed_file_type(Some("ini")));
    assert!(!is_allowed_file_type(Some("srm")));
    assert!(!is_allowed_file_type(None));
    assert_eq!(clean_file_name("Super Mario Bros (USA) [!]"), "Super Mario Bros");
    assert_eq!(clean_file_name("Tetris  "), "Tetris");
}

#[test]
fn text_helpers() {
    assert!(is_whitespace(' '));
    assert!(is_whitespace('\u{3000}'));
    assert!(!is_whitespace('x'));
    assert!(str_eq("abc", "abc"));
    assert!(!str_eq("abc", "abd"));
}

#[test]
fn plugin_pages_are_loaded_and_appended() {
    let mut nav = PluginNavigation::new();
    assert!(nav.prepare_load(NavigationAction::Initialize));
    let page = LoadedItems::next(vec![item("One", false)], String::from("page2"));
    let items = nav.finish_load(page).ok().unwrap();
    assert_eq!(items.len(), 1);
    assert!(nav.needs_load);
    assert_eq!(nav.next_page, "page2");
    assert!(nav.prepare_load(NavigationAction::Fetch));
    let last = LoadedItems::finish(vec![item("Two", false)]);
    let more = nav.finish_load(last).ok().unwrap();
    assert!(!nav.needs_load);
    assert!(!nav.prepare_load(NavigationAction::Fetch));

    let mut state = YaffeState::new();
    state.platforms.push(TileGroup::plugin(0, String::from("Videos")));
    assert_eq!(load_plugin_items(NavigationAction::Initialize, &mut state, Ok(items)), Ok(()));
    assert_eq!(load_plugin_items(NavigationAction::Fetch, &mut state, Ok(more)), Ok(()));
    assert_eq!(state.platforms[0].apps.len(), 2);
    assert_eq!(state.platforms[0].apps[1].name, "Two");
    assert_eq!(load_plugin_items(NavigationAction::Refresh, &mut state, Ok(vec![item("Three", true)])), Ok(()));
    assert_eq!(state.platforms[0].apps.len(), 1);
    assert_eq!(state.platforms[0].apps[0].rating, "Restricted");
    // a failure is handed back and changes nothing
    let failed = load_plugin_items(NavigationAction::Refresh, &mut state, Err(String::from("offline")));
    assert_eq!(failed, Err(String::from("offline")));
    assert_eq!(state.platforms[0].apps.len(), 1);
    assert_eq!(state.platforms[0].apps[0].name, "Three");
}

#[test]
fn plugin_items_leave_other_platforms_alone() {
    let mut state = YaffeState::new();
    state.platforms.push(TileGroup::new(3, String::from("SNES")));
    let loaded = Ok(vec![item("One", false)]);
    assert_eq!(load_plugin_items(NavigationAction::Initialize, &mut state, loaded), Ok(()));
    assert!(state.platforms[0].apps.is_empty());
    let failed = load_plugin_items(NavigationAction::Refresh, &mut state, Err(String::from("offline")));
    assert_eq!(failed, Ok(()));
}

#[test]
fn plugin_navigation_back_and_errors() {
    let mut nav = PluginNavigation::new();
    nav.open(String::from("season1"));
    nav.open(String::from("episode"));
    assert!(nav.prepare_load(NavigationAction::Back));
    assert_eq!(nav.navigation_state, vec![String::from("season1")]);
    assert!(!nav.prepare_load(NavigationAction::Back));
    assert!(nav.navigation_state.is_empty());
    assert!(nav.prepare_load(NavigationAction::Refresh));
    let failed = nav.finish_load(Err(String::from("offline")));
    assert_eq!(failed.err(), Some(String::from("offline")));
    assert!(nav.needs_load);
}

#[test]
fn focus_history() {
    let mut tree = WidgetTree::new(vec![WidgetId::PlatformList, WidgetId::AppList, WidgetId::InfoPane]);
    assert_eq!(tree.focus(WidgetId::PlatformList), FocusChange { lost: None, got: Some(WidgetId::PlatformList) });
    assert_eq!(tree.focus(WidgetId::AppList), FocusChange { lost: Some(WidgetId::PlatformList), got: Some(WidgetId::AppList) });
    assert_eq!(tree.focus(WidgetId::SearchBar), FocusChange { lost: Some(WidgetId::AppList), got: None });
    assert_eq!(tree.focused(), Some(WidgetId::AppList));
    assert_eq!(tree.revert_focus(), FocusChange { lost: Some(WidgetId::AppList), got: Some(WidgetId::PlatformList) });
    assert_eq!(tree.focused(), Some(WidgetId::PlatformList));
}

#[test]
fn deferred_action_resolves_focus() {
    let mut tree = WidgetTree::new(vec![WidgetId::PlatformList, WidgetId::AppList]);
    tree.focus(WidgetId::PlatformList);
    let mut handler = DeferredAction::new();
    handler.focus_widget(WidgetId::AppList);
    handler.load_plugin(NavigationAction::Refresh);
    handler.display_message(String::from("Error"));
    let r = handler.resolve(&mut tree);
    assert_eq!(tree.focused(), Some(WidgetId::AppList));
    assert_eq!(r.load_plugin, Some(NavigationAction::Refresh));
    assert_eq!(r.message, Some(String::from("Error")));
    let mut back = DeferredAction::new();
    back.revert_focus();
    back.resolve(&mut tree);
    assert_eq!(tree.focused(), Some(WidgetId::PlatformList));
}

#[test]
fn games_sorted_by_name_keep_ties_in_order() {
    assert!(name_less("Abc", "Abd"));
    assert!(name_less("Ab", "Abc"));
    assert!(!name_less("Abc", "Ab"));
    assert!(!name_less("Z", "Z"));
    assert!(name_less("Z", "a"));
    let mut a = Tile::plugin_item(0, item("Metroid", false));
    a.file = String::from("first");
    let mut b = Tile::plugin_item(0, item("Metroid", false));
    b.file = String::from("second");
    let games = vec![Tile::plugin_item(0, item("Zelda", false)), a, Tile::plugin_item(0, item("Contra", false)), b];
    let mut group = TileGroup::new(1, String::from("NES"));
    refresh_executable(&mut group, games);
    let names: Vec<&str> = group.apps.iter().map(|t| t.name.as_str()).collect();
    assert_eq!(names, vec!["Contra", "Metroid", "Metroid", "Zelda"]);
    assert_eq!(group.apps[1].file, "first");
    assert_eq!(group.apps[2].file, "second");
    let pairs = sort_by_name(vec![(String::from("b"), String::from("1")), (String::from("a"), String::from("2"))]);
    assert_eq!(pairs[0].0, "a");
}

#[test]
fn platform_list_is_assembled_in_order() {
    let infos = vec![
        PlatformInfo::new(3, String::from("NES"), String::new(), String::new()),
        PlatformInfo::new(9, String::from("SNES"), String::new(), String::new()),
    ];
    let groups = assemble_platforms(String::from("Recent"), infos, vec![String::from("Videos")]);
    assert_eq!(groups.len(), 4);
    assert_eq!(groups[0].kind, GroupType::Recents);
    assert_eq!(groups[1].id, Some(3));
    assert_eq!(groups[2].name, "SNES");
    assert_eq!(groups[3].kind, GroupType::Plugin);
    assert_eq!(groups[3].plugin_index, 0);
}

#[test]
fn menu_entries_and_routes() {
    let off = menu_items(&RestrictedMode::Off);
    assert_eq!(off, vec!["Scan For New Roms", "Add Emulator", "Enable Restricted Mode", "Settings", "Exit Yaffe", "Shut Down"]);
    let on = menu_items(&RestrictedMode::On(RestrictedPasscode::default()));
    assert_eq!(on[2], "Disable Restricted Mode");
    for text in off.iter().chain(on.iter()) {
        let c = menu_choice(text);
        assert_eq!(menu_text(c), *text);
    }
    assert_eq!(menu_choice("Exit Yaffe"), MenuChoice::ExitYaffe);
    assert_eq!(route_input(true, false, &Actions::Accept), InputRoute::Ignore);
    assert_eq!(route_input(false, true, &Actions::ShowMenu), InputRoute::ShowMenu);
    assert_eq!(route_input(false, true, &Actions::ToggleOverlay), InputRoute::Ignore);
    assert_eq!(route_input(false, true, &Actions::Up), InputRoute::Modal);
    assert_eq!(route_input(false, false, &Actions::Up), InputRoute::Widget);
    assert_eq!(search_outcome(true, 5), SearchOutcome::Insert);
    assert_eq!(search_outcome(false, 5), SearchOutcome::Choose);
    assert_eq!(search_outcome(false, 0), SearchOutcome::Nothing);
}
