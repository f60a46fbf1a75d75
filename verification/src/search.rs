//! Filtering the games of a platform by the first letter of their name or
//! by their number of players.
use vstd::prelude::*;
use crate::input::Actions;
use crate::state::{Tile, YaffeState};
use crate::text::{spec_to_uppercase, to_uppercase_first};
use crate::ui::{DeferredAction, FocusType, FocusableWidget, WidgetId};

verus! {

broadcast use vstd::string::group_string_axioms;

/// No filter.
pub const SEARCH_OPTION_NONE: i32 = 0;
/// Filter by the first letter of the name.
pub const SEARCH_OPTION_NAME: i32 = 1;
/// Filter by the number of players.
pub const SEARCH_OPTION_PLAYERS: i32 = 2;
/// The last filter option.
pub const SEARCH_OPTION_MAX: i32 = 2;

/// The active search filter. `option` picks what is filtered on;
/// `start..=end` are the characters offered for it (`A`..`Z` for names,
/// `1`..`4` for players) and `index` is the offset of the chosen one from
/// `start`, or -1 when nothing is chosen. The offset follows the bits of
/// the exists mask, which may lie beyond the offered range.
pub struct SearchInfo {
    pub option: i32,
    pub index: isize,
    pub start: u8,
    pub end: u8,
}

/// The range of characters offered for a filter option.
pub open spec fn spec_search_base(option: i32) -> (u8, u8) {
    if option == SEARCH_OPTION_NAME {
        (65u8, 90u8)
    } else if option == SEARCH_OPTION_PLAYERS {
        (49u8, 52u8)
    } else {
        (0u8, 0u8)
    }
}

/// Whether bit `i` of `mask` is set.
pub open spec fn spec_bit(mask: u64, i: int) -> bool {
    mask & (1u64 << (i as u64)) != 0
}

/// The index reached from `index` by moving in steps of `amount` to the
/// next index whose bit is set in `mask`; -1 when a step goes below 0, or
/// reaches `width` or beyond without finding a set bit.
pub open spec fn spec_next_index(mask: u64, index: int, amount: int, width: int) -> int
    decreases
            (if amount > 0 {
                64 - index
            } else {
                index + 1
            }),
    when (amount == 1 || amount == -1) && -1 <= index && (amount == 1 ==> index < 63)
{
    let i = index + amount;
    if i <= -1 {
        -1
    } else if spec_bit(mask, i) {
        i
    } else if i >= width {
        -1
    } else {
        spec_next_index(mask, i, amount, width)
    }
}

impl SearchInfo {
    /// The option is one of the filter options, the offered range is the
    /// option's, and the chosen index is -1 or a bit of a 64-bit mask.
    pub open spec fn wf(&self) -> bool {
        &&& SEARCH_OPTION_NONE <= self.option <= SEARCH_OPTION_MAX
        &&& (self.start, self.end) == spec_search_base(self.option)
        &&& -1 <= self.index < 64
    }

    /// No filter.
    pub fn new() -> (s: SearchInfo)
        ensures
            s.wf(),
            s.option == SEARCH_OPTION_NONE,
            s.index == -1,
    {
        SearchInfo { option: SEARCH_OPTION_NONE, index: -1, start: 0, end: 0 }
    }

    /// Whether a game with the given name and number of players passes
    /// the filter.
    pub open spec fn spec_is_visible(&self, name: Seq<char>, players: u8) -> bool {
        if self.index == -1 {
            true
        } else if self.option == SEARCH_OPTION_NAME {
            name.len() > 0 && name[0] as int == self.start + self.index
        } else if self.option == SEARCH_OPTION_PLAYERS {
            players == self.index + 1
        } else {
            true
        }
    }

    /// Whether `exe` passes the filter: with a letter chosen its name must
    /// start with that letter, with a player count chosen it must be for
    /// that many players.
    pub fn item_is_visible(&self, exe: &Tile) -> (b: bool)
        requires
            self.wf(),
        ensures
            b == self.spec_is_visible(exe.name@, exe.players),
    {
        if self.index == -1 {
            return true;
        }
        if self.option == SEARCH_OPTION_NAME {
            let name = exe.name.as_str();
            if name.unicode_len() == 0 {
                return false;
            }
            let c = name.get_char(0);
            (c as u32) == (self.start as u32) + (self.index as u32)
        } else if self.option == SEARCH_OPTION_PLAYERS {
            exe.players == (self.index + 1) as u8
        } else {
            true
        }
    }

    /// Moves the chosen index one step (`amount` is 1 or -1) to the next
    /// index whose bit is set in `mask`, or to -1 when there is none
    /// before the end of the range. Moving forward from the last bit of
    /// the mask is not possible.
    pub fn increment_index(&mut self, mask: u64, amount: isize)
        requires
            old(self).wf(),
            amount == 1 || amount == -1,
            amount == 1 ==> old(self).index < 63,
        ensures
            final(self).wf(),
            final(self).option == old(self).option,
            final(self).start == old(self).start,
            final(self).end == old(self).end,
            final(self).index == spec_next_index(
                mask,
                old(self).index as int,
                amount as int,
                old(self).end - old(self).start,
            ),
    {
        let width: isize = (self.end - self.start) as isize;
        let ghost target = spec_next_index(mask, self.index as int, amount as int, width as int);
        let mut i = self.index;
        loop
            invariant
                -1 <= i < 64,
                amount == 1 ==> i < 63,
                width == old(self).end - old(self).start,
                0 <= width <= 25,
                amount == 1 || amount == -1,
                spec_next_index(mask, i as int, amount as int, width as int) == target,
                target == spec_next_index(mask, old(self).index as int, amount as int, width as int),
                *self == *old(self),
                self.wf(),
            decreases
                    (if amount > 0 {
                        64 - i
                    } else {
                        i + 1
                    }),
        {
            i = i + amount;
            if i <= -1 {
                self.index = -1;
                return ;
            } else if mask & (1u64 << (i as u64)) != 0 {
                self.index = i;
                return ;
            } else if i >= width {
                self.index = -1;
                return ;
            }
        }
    }
}

/// Sets the offered range to the one of the current option.
pub fn set_search_base(filter: &mut SearchInfo)
    requires
        SEARCH_OPTION_NONE <= old(filter).option <= SEARCH_OPTION_MAX,
    ensures
        final(filter).option == old(filter).option,
        final(filter).index == old(filter).index,
        (final(filter).start, final(filter).end) == spec_search_base(old(filter).option),
{
    if filter.option == SEARCH_OPTION_NONE {
        filter.start = 0;
        filter.end = 0;
    } else if filter.option == SEARCH_OPTION_NAME {
        filter.start = 65;
        filter.end = 90;
    } else {
        filter.start = 49;
        filter.end = 52;
    }
}

/// The bit a name stands for in the name filter: the offset from `A` of
/// the low byte of its uppercased first character.
pub open spec fn spec_initial_bit(c: char) -> int {
    (spec_to_uppercase(c) as u32 % 256) as int - 65
}

/// Whether the mask of `option` can be computed for `apps`: every
/// nonempty name must start with a character whose bit is within a
/// 64-bit mask, and every player count must be at most 64.
pub open spec fn exists_mask_ok(option: i32, apps: Seq<Tile>) -> bool {
    &&& SEARCH_OPTION_NONE <= option <= SEARCH_OPTION_MAX
    &&& option == SEARCH_OPTION_NAME ==> forall|i: int|
        0 <= i < apps.len() && #[trigger] apps[i].name@.len() > 0 ==> 0 <= spec_initial_bit(
            apps[i].name@[0],
        ) < 64
    &&& option == SEARCH_OPTION_PLAYERS ==> forall|i: int|
        0 <= i < apps.len() ==> #[trigger] apps[i].players <= 64
}

/// The mask bits `app` contributes under `option`, if any.
pub open spec fn spec_app_bit(option: i32, app: Tile) -> Option<u64> {
    if option == SEARCH_OPTION_NAME && app.name@.len() > 0 {
        Some(1u64 << (spec_initial_bit(app.name@[0]) as u64))
    } else if option == SEARCH_OPTION_PLAYERS && app.players > 0 {
        Some(1u64 << ((app.players - 1) as u64))
    } else {
        None
    }
}

/// The mask of filter values for which `apps` has at least one game.
pub open spec fn spec_exists_mask(option: i32, apps: Seq<Tile>) -> u64
    decreases apps.len(),
{
    if apps.len() == 0 || option == SEARCH_OPTION_NONE {
        0
    } else {
        let m = spec_exists_mask(option, apps.drop_last());
        match spec_app_bit(option, apps.last()) {
            Some(b) => m | b,
            None => m,
        }
    }
}

/// Gets a bitmask of the filter values that at least one game matches.
pub fn get_exists_mask(option: i32, apps: &[Tile]) -> (mask: u64)
    requires
        exists_mask_ok(option, apps@),
    ensures
        mask == spec_exists_mask(option, apps@),
{
    let mut mask = 0u64;
    if option == SEARCH_OPTION_NONE {
        return mask;
    }
    let mut i: usize = 0;
    while i < apps.len()
        invariant
            exists_mask_ok(option, apps@),
            option != SEARCH_OPTION_NONE,
            i <= apps.len(),
            mask == spec_exists_mask(option, apps@.take(i as int)),
        decreases apps.len() - i,
    {
        let exe = &apps[i];
        assert(apps@.take(i + 1).drop_last() =~= apps@.take(i as int));
        assert(apps@.take(i + 1).last() == apps@[i as int]);
        if option == SEARCH_OPTION_NAME {
            let name = exe.name.as_str();
            if name.unicode_len() > 0 {
                let c = to_uppercase_first(name.get_char(0));
                let b: u32 = (c as u32) % 256;
                assert(0 <= spec_initial_bit(apps@[i as int].name@[0]) < 64);
                mask = mask | (1u64 << ((b - 65) as u64));
            }
        } else {
            if exe.players > 0 {
                assert(apps@[i as int].players <= 64);
                mask = mask | (1u64 << ((exe.players - 1) as u64));
            }
        }
        i = i + 1;
    }
    assert(apps@.take(apps.len() as int) =~= apps@);
    mask
}

/// The mask of `option` for `apps`, or `None` when it cannot be computed
/// (see [`exists_mask_ok`]).
pub fn try_get_exists_mask(option: i32, apps: &[Tile]) -> (r: Option<u64>)
    ensures
        r == (if exists_mask_ok(option, apps@) {
            Some(spec_exists_mask(option, apps@))
        } else {
            None
        }),
{
    if option < SEARCH_OPTION_NONE || option > SEARCH_OPTION_MAX {
        return None;
    }
    let mut i: usize = 0;
    while i < apps.len()
        invariant
            SEARCH_OPTION_NONE <= option <= SEARCH_OPTION_MAX,
            i <= apps.len(),
            option == SEARCH_OPTION_NAME ==> forall|j: int|
                0 <= j < i && #[trigger] apps@[j].name@.len() > 0 ==> 0 <= spec_initial_bit(
                    apps@[j].name@[0],
                ) < 64,
            option == SEARCH_OPTION_PLAYERS ==> forall|j: int|
                0 <= j < i ==> #[trigger] apps@[j].players <= 64,
        decreases apps.len() - i,
    {
        let exe = &apps[i];
        if option == SEARCH_OPTION_NAME {
            let name = exe.name.as_str();
            if name.unicode_len() > 0 {
                let c = to_uppercase_first(name.get_char(0));
                let b: u32 = (c as u32) % 256;
                if b < 65 || b >= 129 {
                    assert(!exists_mask_ok(option, apps@)) by {
                        assert(apps@[i as int].name@.len() > 0);
                    }
                    return None;
                }
            }
        } else if option == SEARCH_OPTION_PLAYERS {
            if exe.players > 64 {
                assert(!exists_mask_ok(option, apps@)) by {
                    assert(apps@[i as int].players > 64);
                }
                return None;
            }
        }
        i = i + 1;
    }
    Some(get_exists_mask(option, apps))
}


/// The filter after `action` has been handled by the search bar, where
/// `mask` is the exists mask of the selected platform.
pub open spec fn spec_search_update(search: SearchInfo, mask: u64, action: Actions) -> SearchInfo {
    let width = search.end - search.start;
    match action {
        Actions::Left => SearchInfo {
            index: spec_next_index(mask, search.index as int, -1, width) as isize,
            ..search
        },
        Actions::Right => SearchInfo {
            index: spec_next_index(mask, search.index as int, 1, width) as isize,
            ..search
        },
        Actions::Down => if search.index == -1 && search.option > SEARCH_OPTION_NONE {
            SearchInfo {
                option: (search.option - 1) as i32,
                start: spec_search_base((search.option - 1) as i32).0,
                end: spec_search_base((search.option - 1) as i32).1,
                ..search
            }
        } else {
            search
        },
        Actions::Up => if search.index == -1 && search.option < SEARCH_OPTION_MAX {
            SearchInfo {
                option: (search.option + 1) as i32,
                start: spec_search_base((search.option + 1) as i32).0,
                end: spec_search_base((search.option + 1) as i32).1,
                ..search
            }
        } else {
            search
        },
        _ => search,
    }
}

/// Whether the search bar handles `action`.
pub open spec fn spec_search_handled(search: SearchInfo, action: Actions) -> bool {
    match action {
        Actions::Back | Actions::Accept | Actions::Left | Actions::Right => true,
        Actions::Down => search.index == -1 && search.option > SEARCH_OPTION_NONE,
        Actions::Up => search.index == -1 && search.option < SEARCH_OPTION_MAX,
        _ => false,
    }
}

/// The index of the first game at or after `k` that passes the filter, or
/// the number of games when there is none.
pub open spec fn spec_first_visible(search: SearchInfo, apps: Seq<Tile>, k: int) -> int
    decreases apps.len() - k,
{
    if 0 <= k < apps.len() {
        if search.spec_is_visible(apps[k].name@, apps[k].players) {
            k
        } else {
            spec_first_visible(search, apps, k + 1)
        }
    } else {
        apps.len() as int
    }
}

/// The selected game once the filter is accepted: unchanged if it passes
/// the filter (or is no game), otherwise the first game that passes.
pub open spec fn spec_accept_selection(search: SearchInfo, apps: Seq<Tile>, selected: int) -> int {
    if 0 <= selected < apps.len() && !search.spec_is_visible(
        apps[selected].name@,
        apps[selected].players,
    ) {
        spec_first_visible(search, apps, 0)
    } else {
        selected
    }
}

/// Whether the search bar can handle `action` in `state`.
pub open spec fn search_action_ok(state: &YaffeState, action: Actions) -> bool {
    &&& state.selected_platform < state.platforms@.len()
    &&& state.search_info.wf()
    &&& exists_mask_ok(
        state.search_info.option,
        state.platforms@[state.selected_platform as int].apps@,
    )
    &&& action is Right ==> state.search_info.index < 63
}

/// The bar above the game list in which a filter is chosen.
pub struct SearchBar {
    /// Whether the filter was accepted, which keeps the bar shown after it
    /// loses focus.
    pub active: bool,
}

impl FocusableWidget for SearchBar {
    fn get_id(&self) -> (id: WidgetId)
        ensures
            id == WidgetId::SearchBar,
    {
        WidgetId::SearchBar
    }
}

impl SearchBar {
    pub fn new() -> (s: SearchBar)
        ensures
            !s.active,
    {
        SearchBar { active: false }
    }

    /// Handles an action while the search bar has focus. Left and right
    /// choose the previous or next filter value that some game matches;
    /// up and down change the filter option while no value is chosen;
    /// accept moves focus to the game list, selecting the first game that
    /// passes the filter if the selected one does not; back returns focus.
    pub fn action(&mut self, state: &mut YaffeState, action: &Actions, handler: &mut DeferredAction) -> (handled: bool)
        requires
            search_action_ok(old(state), *action),
        ensures
            handled == spec_search_handled(old(state).search_info, *action),
            final(state).search_info == spec_search_update(
                old(state).search_info,
                spec_exists_mask(
                    old(state).search_info.option,
                    old(state).platforms@[old(state).selected_platform as int].apps@,
                ),
                *action,
            ),
            final(state).search_info.wf(),
            final(state).selected_app == (if action is Accept {
                spec_accept_selection(
                    old(state).search_info,
                    old(state).platforms@[old(state).selected_platform as int].apps@,
                    old(state).selected_app as int,
                ) as usize
            } else {
                old(state).selected_app
            }),
            final(state).platforms == old(state).platforms,
            final(state).selected_platform == old(state).selected_platform,
            final(state).focused_widget == old(state).focused_widget,
            final(state).restricted_mode == old(state).restricted_mode,
            final(state).refresh_list == old(state).refresh_list,
            final(state).running == old(state).running,
            final(self).active == (match *action {
                Actions::Back => false,
                Actions::Accept => true,
                _ => old(self).active,
            }),
            final(handler).focus == (match *action {
                Actions::Back => Some(FocusType::Revert),
                Actions::Accept => Some(FocusType::Focus(WidgetId::AppList)),
                _ => old(handler).focus,
            }),
            final(handler).load_plugin == old(handler).load_plugin,
            final(handler).message == old(handler).message,
            final(handler).request == old(handler).request,
    {
        let mask = get_exists_mask(
            state.search_info.option,
            state.platforms[state.selected_platform].apps.as_slice(),
        );
        match action {
            Actions::Back => {
                handler.revert_focus();
                self.active = false;
                true
            },
            Actions::Accept => {
                handler.focus_widget(WidgetId::AppList);
                self.active = true;
                let sp = state.selected_platform;
                let ghost apps = state.platforms@[sp as int].apps@;
                let n = state.platforms[sp].apps.len();
                if state.selected_app < n && !state.search_info.item_is_visible(
                    &state.platforms[sp].apps[state.selected_app],
                ) {
                    state.selected_app = 0;
                    while state.selected_app < n && !state.search_info.item_is_visible(
                        &state.platforms[sp].apps[state.selected_app],
                    )
                        invariant
                            sp == state.selected_platform,
                            sp == old(state).selected_platform,
                            state.search_info == old(state).search_info,
                            state.platforms == old(state).platforms,
                            state.focused_widget == old(state).focused_widget,
                            state.restricted_mode == old(state).restricted_mode,
                            state.refresh_list == old(state).refresh_list,
                            state.running == old(state).running,
                            sp < state.platforms@.len(),
                            apps == state.platforms@[sp as int].apps@,
                            n == apps.len(),
                            state.search_info.wf(),
                            state.selected_app <= n,
                            spec_first_visible(state.search_info, apps, state.selected_app as int)
                                == spec_first_visible(state.search_info, apps, 0),
                        decreases n - state.selected_app,
                    {
                        state.selected_app = state.selected_app + 1;
                    }
                }
                true
            },
            Actions::Left => {
                state.search_info.increment_index(mask, -1);
                true
            },
            Actions::Right => {
                state.search_info.increment_index(mask, 1);
                true
            },
            Actions::Down => {
                if state.search_info.index == -1 && state.search_info.option > SEARCH_OPTION_NONE {
                    state.search_info.option = state.search_info.option - 1;
                    set_search_base(&mut state.search_info);
                    return true;
                }
                false
            },
            Actions::Up => {
                if state.search_info.index == -1 && state.search_info.option < SEARCH_OPTION_MAX {
                    state.search_info.option = state.search_info.option + 1;
                    set_search_base(&mut state.search_info);
                    return true;
                }
                false
            },
            _ => false,
        }
    }

    /// Handles `action` as [`SearchBar::action`] does where that is
    /// possible (see [`search_action_ok`]); otherwise changes nothing and
    /// returns `None`.
    pub fn try_action(&mut self, state: &mut YaffeState, action: &Actions, handler: &mut DeferredAction) -> (r: Option<bool>)
        ensures
            r is None <==> !search_action_ok(old(state), *action),
            r is None ==> *final(state) == *old(state) && *final(self) == *old(self)
                && *final(handler) == *old(handler),
            r matches Some(h) ==> h == spec_search_handled(old(state).search_info, *action)
                && final(state).search_info == spec_search_update(
                old(state).search_info,
                spec_exists_mask(
                    old(state).search_info.option,
                    old(state).platforms@[old(state).selected_platform as int].apps@,
                ),
                *action,
            ) && final(state).selected_app == (if action is Accept {
                spec_accept_selection(
                    old(state).search_info,
                    old(state).platforms@[old(state).selected_platform as int].apps@,
                    old(state).selected_app as int,
                ) as usize
            } else {
                old(state).selected_app
            }),
    {
        if state.selected_platform >= state.platforms.len() {
            return None;
        }
        let s = &state.search_info;
        if s.option < SEARCH_OPTION_NONE || s.option > SEARCH_OPTION_MAX || s.index < -1 || s.index
            >= 64 {
            return None;
        }
        let base_ok = if s.option == SEARCH_OPTION_NONE {
            s.start == 0 && s.end == 0
        } else if s.option == SEARCH_OPTION_NAME {
            s.start == 65 && s.end == 90
        } else {
            s.start == 49 && s.end == 52
        };
        if !base_ok {
            return None;
        }
        if let Actions::Right = action {
            if s.index >= 63 {
                return None;
            }
        }
        let m = try_get_exists_mask(s.option, state.platforms[state.selected_platform].apps.as_slice());
        if m.is_none() {
            return None;
        }
        Some(self.action(state, action, handler))
    }
}

/// Moving down from `index` within the offered range finds the nearest
/// lower index whose bit is set, or -1 when no lower bit is set.
proof fn lemma_next_index_down(mask: u64, index: int, width: int)
    requires
        -1 <= index <= width,
    ensures
        ({
            let r = spec_next_index(mask, index, -1, width);
            &&& -1 <= r < index || (index == -1 && r == -1)
            &&& r >= 0 ==> spec_bit(mask, r)
            &&& forall|j: int| r < j < index && 0 <= j ==> !spec_bit(mask, j)
        }),
    decreases index + 1,
{
    let i = index - 1;
    if i > -1 && !spec_bit(mask, i) {
        lemma_next_index_down(mask, i, width);
    }
}

/// Moving up from `index` finds the nearest higher index whose bit is set,
/// or -1; no bit between `index` and the index found is set.
proof fn lemma_next_index_up(mask: u64, index: int, width: int)
    requires
        -1 <= index < 63,
        width <= 63,
    ensures
        ({
            let r = spec_next_index(mask, index, 1, width);
            &&& r == -1 || (index < r < 64 && spec_bit(mask, r))
            &&& r != -1 ==> forall|j: int| index < j < r ==> !spec_bit(mask, j)
        }),
    decreases 64 - index,
{
    let i = index + 1;
    if i > -1 && !spec_bit(mask, i) && i < width {
        lemma_next_index_up(mask, i, width);
    }
}

/// Left moves the chosen filter value to the nearest lower value that some
/// game has (whose bit is set in the mask of existing values), or clears
/// the choice when no lower value exists; the filter option stays.
pub proof fn lemma_left_picks_previous_value(search: SearchInfo, mask: u64)
    requires
        search.wf(),
        search.index <= search.end - search.start,
    ensures
        ({
            let after = spec_search_update(search, mask, Actions::Left);
            let r = after.index as int;
            &&& r == -1 || (0 <= r < search.index && spec_bit(mask, r))
            &&& forall|j: int| r < j < search.index && 0 <= j ==> !spec_bit(mask, j)
            &&& after.option == search.option
            &&& after.start == search.start
            &&& after.end == search.end
        }),
{
    lemma_next_index_down(mask, search.index as int, search.end - search.start);
}

/// Right moves the chosen filter value to the nearest higher value that
/// some game has, or clears the choice when there is none in the offered
/// range; the filter option stays.
pub proof fn lemma_right_picks_next_value(search: SearchInfo, mask: u64)
    requires
        search.wf(),
        search.index < 63,
    ensures
        ({
            let after = spec_search_update(search, mask, Actions::Right);
            let r = after.index as int;
            &&& r == -1 || (search.index < r < 64 && spec_bit(mask, r))
            &&& r != -1 ==> forall|j: int| search.index < j < r ==> !spec_bit(mask, j)
            &&& after.option == search.option
            &&& after.start == search.start
            &&& after.end == search.end
        }),
{
    lemma_next_index_up(mask, search.index as int, search.end - search.start);
}

/// From a chosen value that some game has, Right and then Left come back
/// to it, as long as Right found a value within the offered range.
pub proof fn lemma_right_then_left(search: SearchInfo, mask: u64)
    requires
        search.wf(),
        0 <= search.index < 63,
        spec_bit(mask, search.index as int),
        spec_search_update(search, mask, Actions::Right).index != -1,
        spec_search_update(search, mask, Actions::Right).index <= search.end - search.start,
    ensures
        spec_search_update(
            spec_search_update(search, mask, Actions::Right),
            mask,
            Actions::Left,
        ).index == search.index,
{
    let right = spec_search_update(search, mask, Actions::Right);
    lemma_right_picks_next_value(search, mask);
    lemma_left_picks_previous_value(right, mask);
}

} // verus!
