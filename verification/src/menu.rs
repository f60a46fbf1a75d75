//! The launcher's main menu and where an action goes: to the menu, to
//! the open dialog or to the focused widget.
use vstd::prelude::*;
use crate::input::Actions;
use crate::restrictions::RestrictedMode;
use crate::text::str_eq;

verus! {

/// An entry of the main menu.
#[derive(Copy, Clone, Debug, PartialEq, Eq, Structural)]
pub enum MenuChoice {
    ScanForNewRoms,
    AddEmulator,
    DisableRestrictedMode,
    EnableRestrictedMode,
    Settings,
    ExitYaffe,
    ShutDown,
}

/// The text of a menu entry.
pub open spec fn spec_menu_text(c: MenuChoice) -> Seq<char> {
    match c {
        MenuChoice::ScanForNewRoms => "Scan For New Roms"@,
        MenuChoice::AddEmulator => "Add Emulator"@,
        MenuChoice::DisableRestrictedMode => "Disable Restricted Mode"@,
        MenuChoice::EnableRestrictedMode => "Enable Restricted Mode"@,
        MenuChoice::Settings => "Settings"@,
        MenuChoice::ExitYaffe => "Exit Yaffe"@,
        MenuChoice::ShutDown => "Shut Down"@,
    }
}

/// The entries of the main menu, in order. The restricted mode entry
/// turns the mode off when it is on, and on otherwise.
pub open spec fn spec_menu(mode: RestrictedMode) -> Seq<MenuChoice> {
    seq![
        MenuChoice::ScanForNewRoms,
        MenuChoice::AddEmulator,
        if mode is On {
            MenuChoice::DisableRestrictedMode
        } else {
            MenuChoice::EnableRestrictedMode
        },
        MenuChoice::Settings,
        MenuChoice::ExitYaffe,
        MenuChoice::ShutDown
    ]
}

/// The text of a menu entry.
pub fn menu_text(c: MenuChoice) -> (s: String)
    ensures
        s@ == spec_menu_text(c),
{
    match c {
        MenuChoice::ScanForNewRoms => String::from_str("Scan For New Roms"),
        MenuChoice::AddEmulator => String::from_str("Add Emulator"),
        MenuChoice::DisableRestrictedMode => String::from_str("Disable Restricted Mode"),
        MenuChoice::EnableRestrictedMode => String::from_str("Enable Restricted Mode"),
        MenuChoice::Settings => String::from_str("Settings"),
        MenuChoice::ExitYaffe => String::from_str("Exit Yaffe"),
        MenuChoice::ShutDown => String::from_str("Shut Down"),
    }
}

/// The texts of the main menu's entries, in order.
pub fn menu_items(mode: &RestrictedMode) -> (items: Vec<String>)
    ensures
        items@.len() == spec_menu(*mode).len(),
        forall|i: int|
            0 <= i < items@.len() ==> (#[trigger] items@[i])@ == spec_menu_text(spec_menu(*mode)[i]),
{
    let restricted = match mode {
        RestrictedMode::On(_) => MenuChoice::DisableRestrictedMode,
        RestrictedMode::Off => MenuChoice::EnableRestrictedMode,
    };
    let choices = [
        MenuChoice::ScanForNewRoms,
        MenuChoice::AddEmulator,
        restricted,
        MenuChoice::Settings,
        MenuChoice::ExitYaffe,
        MenuChoice::ShutDown,
    ];
    assert(choices@ =~= spec_menu(*mode));
    let mut items: Vec<String> = Vec::new();
    let mut i: usize = 0;
    while i < 6
        invariant
            i <= 6,
            choices@ == spec_menu(*mode),
            items@.len() == i,
            forall|j: int| 0 <= j < i ==> (#[trigger] items@[j])@ == spec_menu_text(choices@[j]),
        decreases 6 - i,
    {
        items.push(menu_text(choices[i]));
        i = i + 1;
    }
    items
}

/// The menu entry whose text is `selected`, if any.
pub open spec fn spec_menu_choice(selected: Seq<char>) -> Option<MenuChoice> {
    if selected == "Scan For New Roms"@ {
        Some(MenuChoice::ScanForNewRoms)
    } else if selected == "Add Emulator"@ {
        Some(MenuChoice::AddEmulator)
    } else if selected == "Disable Restricted Mode"@ {
        Some(MenuChoice::DisableRestrictedMode)
    } else if selected == "Enable Restricted Mode"@ {
        Some(MenuChoice::EnableRestrictedMode)
    } else if selected == "Settings"@ {
        Some(MenuChoice::Settings)
    } else if selected == "Exit Yaffe"@ {
        Some(MenuChoice::ExitYaffe)
    } else if selected == "Shut Down"@ {
        Some(MenuChoice::ShutDown)
    } else {
        None
    }
}

/// The menu entry chosen by its text. Only the menu's own texts can be
/// chosen.
pub fn menu_choice(selected: &str) -> (c: MenuChoice)
    requires
        spec_menu_choice(selected@) is Some,
    ensures
        spec_menu_choice(selected@) == Some(c),
{
    if str_eq(selected, "Scan For New Roms") {
        MenuChoice::ScanForNewRoms
    } else if str_eq(selected, "Add Emulator") {
        MenuChoice::AddEmulator
    } else if str_eq(selected, "Disable Restricted Mode") {
        MenuChoice::DisableRestrictedMode
    } else if str_eq(selected, "Enable Restricted Mode") {
        MenuChoice::EnableRestrictedMode
    } else if str_eq(selected, "Settings") {
        MenuChoice::Settings
    } else if str_eq(selected, "Exit Yaffe") {
        MenuChoice::ExitYaffe
    } else {
        MenuChoice::ShutDown
    }
}

/// Choosing an entry of the menu by its own text chooses that entry.
pub proof fn lemma_menu_choice_round_trip(mode: RestrictedMode, i: int)
    requires
        0 <= i < spec_menu(mode).len(),
    ensures
        spec_menu_choice(spec_menu_text(spec_menu(mode)[i])) == Some(spec_menu(mode)[i]),
{
    reveal_strlit("Scan For New Roms");
    reveal_strlit("Add Emulator");
    reveal_strlit("Disable Restricted Mode");
    reveal_strlit("Enable Restricted Mode");
    reveal_strlit("Settings");
    reveal_strlit("Exit Yaffe");
    reveal_strlit("Shut Down");
    let texts = seq![
        "Scan For New Roms"@,
        "Add Emulator"@,
        "Disable Restricted Mode"@,
        "Enable Restricted Mode"@,
        "Settings"@,
        "Exit Yaffe"@,
        "Shut Down"@
    ];
    assert(texts[0].len() != texts[1].len() && texts[0][0] != texts[2][0] && texts[0][0]
        != texts[3][0] && texts[0][1] != texts[4][1] && texts[0][0] != texts[5][0] && texts[0][1]
        != texts[6][1]);
    assert(texts[1][0] != texts[2][0] && texts[1][0] != texts[3][0] && texts[1][0] != texts[4][0]
        && texts[1][0] != texts[5][0] && texts[1][0] != texts[6][0]);
    assert(texts[2][0] != texts[3][0] && texts[2][0] != texts[4][0] && texts[2][0] != texts[5][0]
        && texts[2][0] != texts[6][0]);
    assert(texts[3][1] != texts[4][1] && texts[3][1] != texts[5][1] && texts[3][0] != texts[6][0]);
    assert(texts[4][0] != texts[5][0] && texts[4][1] != texts[6][1]);
    assert(texts[5][0] != texts[6][0]);
}

/// Where an action goes.
#[derive(Copy, Clone, Debug, PartialEq, Eq, Structural)]
pub enum InputRoute {
    /// Nothing handles it here.
    Ignore,
    /// The main menu opens.
    ShowMenu,
    /// The open dialog handles it.
    Modal,
    /// The focused widget handles it.
    Widget,
}

/// Where `action` goes: nowhere while the game overlay is shown, the menu
/// key opens the menu, the overlay key is left to the overlay, and any
/// other action goes to the open dialog, or to the focused widget when no
/// dialog is open.
pub fn route_input(overlay_active: bool, modal_open: bool, action: &Actions) -> (r: InputRoute)
    ensures
        r == (if overlay_active {
            InputRoute::Ignore
        } else {
            match *action {
                Actions::ShowMenu => InputRoute::ShowMenu,
                Actions::ToggleOverlay => InputRoute::Ignore,
                _ => if modal_open {
                    InputRoute::Modal
                } else {
                    InputRoute::Widget
                },
            }
        }),
{
    if overlay_active {
        return InputRoute::Ignore;
    }
    match action {
        Actions::ShowMenu => InputRoute::ShowMenu,
        Actions::ToggleOverlay => InputRoute::Ignore,
        _ => if modal_open {
            InputRoute::Modal
        } else {
            InputRoute::Widget
        },
    }
}

/// What to do with the answer of a search for a game or a platform.
#[derive(Copy, Clone, Debug, PartialEq, Eq, Structural)]
pub enum SearchOutcome {
    /// Store the one exact match.
    Insert,
    /// Let the user choose among the results.
    Choose,
    /// Nothing was found.
    Nothing,
}

/// An exact match is stored; otherwise the user chooses among the results
/// if there are any.
pub fn search_outcome(exact: bool, count: u64) -> (o: SearchOutcome)
    ensures
        o == (if exact {
            SearchOutcome::Insert
        } else if count > 0 {
            SearchOutcome::Choose
        } else {
            SearchOutcome::Nothing
        }),
{
    if exact {
        SearchOutcome::Insert
    } else if count > 0 {
        SearchOutcome::Choose
    } else {
        SearchOutcome::Nothing
    }
}

} // verus!
