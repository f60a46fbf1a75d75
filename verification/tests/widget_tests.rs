use yaffe::input::Actions;
use yaffe::plugin::{NavigationAction, PathType};
use yaffe::search::{get_exists_mask, SearchBar, SearchInfo, SEARCH_OPTION_NAME, SEARCH_OPTION_PLAYERS};
use yaffe::state::{GroupType, Tile, TileGroup, YaffeState};
use yaffe::ui::{AppRequest, DeferredAction, FocusType, WidgetId};
use yaffe::atlas::Images;
use yaffe::widgets::{toolbar_hints, AppList, AppTile, InfoPane, PlatformList};

fn tile(name: &str, players: u8) -> Tile {
    Tile {
        file: format!("{}.rom", name),
        name: String::from(name),
        description: String::new(),
        rating: String::from("E - Everyone"),
        released: String::new(),
        players,
        platform_index: 0,
        boxart: PathType::File(std::path::PathBuf::from("art.jpg")),
    }
}

fn state_with(names: &[&str]) -> YaffeState {
    let mut state = YaffeState::new();
    let mut group = TileGroup::new(1, String::from("NES"));
    for n in names {
        group.apps.push(tile(n, 1));
    }
    state.platforms.push(group);
    state
}

#[test]
fn app_tile_follows_selection() {
    let mut t = AppTile::new(3);
    assert!(t.is_visible());
    assert!(!t.update(2));
    assert!(!t.focused);
    assert!(t.update(3));
    assert!(t.focused);
    assert!(!t.update(3));
    assert!(!t.update(1));
    assert!(!t.focused);
}

#[test]
fn app_list_update_builds_tiles_and_filters() {
    let mut state = state_with(&["Alpha", "Beta", "Avenger"]);
    let mut list = AppList::new();
    state.selected_app = 1;
    assert!(list.update(&state));
    assert_eq!(list.tiles.len(), 3);
    assert_eq!(list.cached_platform, 0);
    assert!(list.tiles[1].focused);
    assert!(!list.update(&state));

    state.search_info.option = SEARCH_OPTION_NAME;
    state.search_info.start = 65;
    state.search_info.end = 90;
    state.search_info.index = 0;
    list.update(&state);
    assert!(list.tiles[0].is_visible());
    assert!(!list.tiles[1].is_visible());
    assert!(list.tiles[2].is_visible());
}

#[test]
fn app_list_moves_by_rows_and_scrolls() {
    let names: Vec<String> = (0..10).map(|i| format!("Game{}", i)).collect();
    let refs: Vec<&str> = names.iter().map(|s| s.as_str()).collect();
    let mut state = state_with(&refs);
    let mut list = AppList::new();
    list.update(&state);
    list.tiles_x = 4;
    list.tiles_y = 2;
    let mut handler = DeferredAction::new();

    assert!(list.action(&mut state, &Actions::Down, &mut handler));
    assert_eq!(state.selected_app, 4);
    assert_eq!(list.first_visible, 0);
    assert!(list.action(&mut state, &Actions::Down, &mut handler));
    assert_eq!(state.selected_app, 8);
    assert_eq!(list.first_visible, 4);
    assert!(list.action(&mut state, &Actions::Right, &mut handler));
    assert_eq!(state.selected_app, 9);
    // no game to the right of the last one: nothing moves
    assert!(list.action(&mut state, &Actions::Right, &mut handler));
    assert_eq!(state.selected_app, 9);
    // a full row down would leave the grid
    assert!(list.action(&mut state, &Actions::Down, &mut handler));
    assert_eq!(state.selected_app, 9);
    assert!(list.action(&mut state, &Actions::Up, &mut handler));
    assert_eq!(state.selected_app, 5);
    assert_eq!(list.first_visible, 4);
    assert!(list.action(&mut state, &Actions::Up, &mut handler));
    assert_eq!(state.selected_app, 1);
    assert_eq!(list.first_visible, 0);
    assert_eq!(handler.focus, None);
}

#[test]
fn app_list_skips_hidden_games() {
    let mut state = state_with(&["Alpha", "Beta", "Bravo", "Arkanoid"]);
    let mut list = AppList::new();
    state.search_info.option = SEARCH_OPTION_NAME;
    state.search_info.start = 65;
    state.search_info.end = 90;
    state.search_info.index = 0;
    list.update(&state);
    list.tiles_x = 4;
    list.tiles_y = 1;
    let mut handler = DeferredAction::new();
    assert!(list.action(&mut state, &Actions::Right, &mut handler));
    assert_eq!(state.selected_app, 3);
}

#[test]
fn app_list_requests_and_focus() {
    let mut state = state_with(&["Alpha"]);
    let mut list = AppList::new();
    list.update(&state);
    list.tiles_x = 1;
    list.tiles_y = 1;
    let mut handler = DeferredAction::new();
    assert!(list.action(&mut state, &Actions::Accept, &mut handler));
    assert_eq!(handler.request, Some(AppRequest::StartGame));
    assert!(list.action(&mut state, &Actions::Info, &mut handler));
    assert_eq!(handler.focus, Some(FocusType::Focus(WidgetId::InfoPane)));
    assert!(list.action(&mut state, &Actions::Filter, &mut handler));
    assert_eq!(handler.focus, Some(FocusType::Focus(WidgetId::SearchBar)));
    assert!(list.action(&mut state, &Actions::Back, &mut handler));
    assert_eq!(handler.focus, Some(FocusType::Revert));
    assert!(!list.action(&mut state, &Actions::ShowMenu, &mut handler));
}

#[test]
fn platform_list_selects_neighbours() {
    let mut state = YaffeState::new();
    state.platforms.push(TileGroup::recents(String::from("Recent")));
    state.platforms.push(TileGroup::new(1, String::from("NES")));
    state.platforms.push(TileGroup::plugin(0, String::from("Plugin")));
    state.selected_app = 5;
    let mut list = PlatformList::new();
    let mut handler = DeferredAction::new();
    assert!(list.action(&mut state, &Actions::Up, &mut handler));
    assert_eq!(state.selected_platform, 0);
    assert_eq!(state.selected_app, 5);
    assert_eq!(handler.load_plugin, None);
    assert!(list.action(&mut state, &Actions::Down, &mut handler));
    assert_eq!(state.selected_platform, 1);
    assert_eq!(state.selected_app, 0);
    assert_eq!(handler.load_plugin, Some(NavigationAction::Initialize));
    assert!(list.action(&mut state, &Actions::Info, &mut handler));
    assert_eq!(handler.request, Some(AppRequest::PlatformInfo));
    assert!(list.action(&mut state, &Actions::Down, &mut handler));
    assert!(list.action(&mut state, &Actions::Down, &mut handler));
    assert_eq!(state.selected_platform, 2);
    assert_eq!(state.platforms[2].kind, GroupType::Plugin);
    assert!(list.action(&mut state, &Actions::Accept, &mut handler));
    assert_eq!(handler.focus, Some(FocusType::Focus(WidgetId::AppList)));
}

#[test]
fn info_pane_handles_back_only() {
    let mut state = YaffeState::new();
    let mut pane = InfoPane::new();
    let mut handler = DeferredAction::new();
    assert!(!pane.action(&mut state, &Actions::Accept, &mut handler));
    assert_eq!(handler.focus, None);
    assert!(pane.action(&mut state, &Actions::Back, &mut handler));
    assert_eq!(handler.focus, Some(FocusType::Revert));
}

#[test]
fn search_item_visibility() {
    let mut s = SearchInfo::new();
    assert!(s.item_is_visible(&tile("Zelda", 1)));
    s.option = SEARCH_OPTION_PLAYERS;
    s.start = 49;
    s.end = 52;
    s.index = 1;
    assert!(s.item_is_visible(&tile("Zelda", 2)));
    assert!(!s.item_is_visible(&tile("Zelda", 1)));
}

#[test]
fn exists_mask_of_names_and_players() {
    let apps = vec![tile("alpha", 1), tile("Bravo", 4), tile("", 2)];
    assert_eq!(get_exists_mask(SEARCH_OPTION_NAME, &apps), 0b11);
    assert_eq!(get_exists_mask(SEARCH_OPTION_PLAYERS, &apps), 0b1011);
    // initials are compared in upper case, by the first character of
    // their upper case mapping
    let apps = vec![tile("quest", 1), tile("\u{df}eta", 1)];
    assert_eq!(get_exists_mask(SEARCH_OPTION_NAME, &apps), (1 << 16) | (1 << 18));
}

#[test]
fn search_bar_chooses_a_letter_and_accepts() {
    let mut state = state_with(&["Bravo", "Delta", "Dune"]);
    let mut bar = SearchBar::new();
    let mut handler = DeferredAction::new();
    assert!(bar.action(&mut state, &Actions::Up, &mut handler));
    assert_eq!(state.search_info.option, SEARCH_OPTION_NAME);
    assert_eq!(state.search_info.start, 65);
    assert!(bar.action(&mut state, &Actions::Right, &mut handler));
    assert_eq!(state.search_info.index, 1);
    assert!(bar.action(&mut state, &Actions::Right, &mut handler));
    assert_eq!(state.search_info.index, 3);
    // once a letter is chosen the option stays
    assert!(!bar.action(&mut state, &Actions::Up, &mut handler));
    assert!(bar.action(&mut state, &Actions::Accept, &mut handler));
    assert!(bar.active);
    assert_eq!(state.selected_app, 1);
    assert_eq!(handler.focus, Some(FocusType::Focus(WidgetId::AppList)));
    assert!(bar.action(&mut state, &Actions::Back, &mut handler));
    assert!(!bar.active);
    assert_eq!(handler.focus, Some(FocusType::Revert));
}

#[test]
fn search_bar_refuses_what_it_cannot_handle() {
    let mut state = YaffeState::new();
    let mut bar = SearchBar::new();
    let mut handler = DeferredAction::new();
    // no platform to search
    assert_eq!(bar.try_action(&mut state, &Actions::Right, &mut handler), None);
    let mut state = state_with(&["Bravo"]);
    assert_eq!(bar.try_action(&mut state, &Actions::Down, &mut handler), Some(false));
}

#[test]
fn toolbar_hints_follow_focus() {
    let hints = toolbar_hints(Some(WidgetId::AppList), GroupType::Emulator);
    assert_eq!(hints, vec![(Images::ButtonY, String::from("Filter")), (Images::ButtonB, String::from("Back"))]);
    let hints = toolbar_hints(Some(WidgetId::PlatformList), GroupType::Plugin);
    assert_eq!(hints, vec![(Images::ButtonX, String::from("Settings")), (Images::ButtonA, String::from("Select"))]);
    let hints = toolbar_hints(Some(WidgetId::PlatformList), GroupType::Recents);
    assert_eq!(hints, vec![(Images::ButtonA, String::from("Select"))]);
    assert!(toolbar_hints(Some(WidgetId::InfoPane), GroupType::Emulator).is_empty());
    assert!(toolbar_hints(None, GroupType::Emulator).is_empty());
}

#[test]
fn app_list_handles_wide_grids() {
    let names: Vec<String> = (0..10).map(|i| format!("Game{}", i)).collect();
    let refs: Vec<&str> = names.iter().map(|s| s.as_str()).collect();
    let state = state_with(&refs);
    let mut list = AppList::new();
    list.update(&state);
    list.tiles_x = 5000;
    list.tiles_y = 1;
    // one row of 5000 columns shows every game: moving never scrolls
    assert_eq!(list.increment_index(0, 4, true), (4, 0));
    assert_eq!(list.increment_index(9, 1, true), (9, 0));
    // a window of one tile scrolls by whole rows of 3
    list.tiles_x = 3;
    list.tiles_y = 1;
    list.first_visible = 3;
    assert_eq!(list.increment_index(4, 4, true), (8, 6));
    assert_eq!(list.increment_index(4, 3, false), (1, 0));
}
