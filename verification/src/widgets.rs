//! Navigation in the platform list, the game grid and the info pane.
use vstd::prelude::*;
use crate::atlas::Images;
use vstd::arithmetic::div_mod::{lemma_add_mod_noop, lemma_mod_add_multiples_vanish, lemma_mod_sub_multiples_vanish};
use crate::input::Actions;
use crate::plugin::NavigationAction;
use crate::search::SearchInfo;
use crate::state::{GroupType, Tile, YaffeState};
use crate::ui::{AppRequest, DeferredAction, FocusType, FocusableWidget, WidgetId};

verus! {

/// Flag of a tile that passes the search filter.
pub const VISIBLE_FLAG: u8 = 0x01;

/// How many games one up or down move skips in the game grid.
pub const APPS_PER_ROW: usize = 4;

/// A game's place in the game grid.
#[derive(Copy, Clone)]
pub struct AppTile {
    pub index: usize,
    pub focused: bool,
    pub flags: u8,
}

/// Whether `flags` marks a tile as visible.
pub open spec fn spec_flags_visible(flags: u8) -> bool {
    flags & VISIBLE_FLAG != 0
}

impl AppTile {
    /// The tile of the game at `index`, visible and not focused.
    pub fn new(index: usize) -> (t: AppTile)
        ensures
            t.index == index,
            !t.focused,
            t.is_visible_spec(),
    {
        let t = AppTile { index, focused: false, flags: VISIBLE_FLAG };
        assert(VISIBLE_FLAG & VISIBLE_FLAG != 0) by (bit_vector);
        t
    }

    pub open spec fn is_visible_spec(&self) -> bool {
        spec_flags_visible(self.flags)
    }

    /// Whether the tile passes the search filter.
    pub fn is_visible(&self) -> (b: bool)
        ensures
            b == self.is_visible_spec(),
    {
        (self.flags & VISIBLE_FLAG) != 0
    }

    /// Marks the tile visible if its game passes `filter`, hidden otherwise.
    pub fn apply_filter(&mut self, filter: &SearchInfo, apps: &Vec<Tile>)
        requires
            filter.wf(),
            old(self).index < apps@.len(),
        ensures
            final(self).index == old(self).index,
            final(self).focused == old(self).focused,
            final(self).is_visible_spec() == filter.spec_is_visible(
                apps@[old(self).index as int].name@,
                apps@[old(self).index as int].players,
            ),
    {
        let visible = filter.item_is_visible(&apps[self.index]);
        let flags = self.flags;
        if visible {
            self.flags = flags | VISIBLE_FLAG;
            assert((flags | 1u8) & 1u8 != 0) by (bit_vector);
        } else {
            self.flags = flags & !VISIBLE_FLAG;
            assert((flags & !1u8) & 1u8 == 0) by (bit_vector);
        }
    }

    /// Follows the selection: the tile is focused exactly when its game is
    /// selected. Returns whether the tile just became focused, which
    /// restarts its grow animation.
    pub fn update(&mut self, selected_app: usize) -> (started: bool)
        ensures
            final(self).index == old(self).index,
            final(self).flags == old(self).flags,
            final(self).focused == (selected_app == old(self).index),
            started == (selected_app == old(self).index && !old(self).focused),
    {
        if selected_app == self.index {
            if !self.focused {
                self.focused = true;
                return true;
            }
            false
        } else {
            self.focused = false;
            false
        }
    }
}

/// The visibility of each tile.
pub open spec fn spec_visibility(tiles: Seq<AppTile>) -> Seq<bool> {
    tiles.map_values(|t: AppTile| t.is_visible_spec())
}

/// Starting at `j`, the first position in direction `dir` that is outside
/// the grid or holds a visible tile.
pub open spec fn spec_skip_hidden(vis: Seq<bool>, j: int, dir: int) -> int
    decreases
            (if dir > 0 {
                vis.len() - j
            } else {
                j + 1
            }),
    when dir == 1 || dir == -1
{
    if 0 <= j < vis.len() && !vis[j] {
        spec_skip_hidden(vis, j + dir, dir)
    } else {
        j
    }
}

/// The position reached from `index` by `n` moves in direction `dir`,
/// each to the next visible tile; `None` if a move leaves the grid.
pub open spec fn spec_move(vis: Seq<bool>, index: int, dir: int, n: nat) -> Option<int>
    decreases n,
{
    if n == 0 {
        Some(index)
    } else {
        match spec_move(vis, index, dir, (n - 1) as nat) {
            None => None,
            Some(p) => {
                let q = spec_skip_hidden(vis, p + dir, dir);
                if 0 <= q < vis.len() {
                    Some(q)
                } else {
                    None
                }
            },
        }
    }
}

/// Scrolls the first visible position up a row at a time until `index`
/// is not above it.
pub open spec fn spec_scroll_up(first: int, index: int, tiles_x: int) -> int
    decreases
            (if first > index {
                first - index
            } else {
                0
            }),
    when tiles_x > 0
{
    if index < first {
        spec_scroll_up(first - tiles_x, index, tiles_x)
    } else {
        first
    }
}

/// Scrolls the first visible position down a row at a time until `index`
/// is not below the `window` positions shown from it.
pub open spec fn spec_scroll_down(first: int, index: int, tiles_x: int, window: int) -> int
    decreases
            (if index - window + 1 - first > 0 {
                index - window + 1 - first
            } else {
                0
            }),
    when tiles_x > 0
{
    if index > first + window - 1 {
        spec_scroll_down(first + tiles_x, index, tiles_x, window)
    } else {
        first
    }
}

/// The first visible position once the grid is scrolled so that `index`
/// is shown.
pub open spec fn spec_scroll(first: int, index: int, tiles_x: int, tiles_y: int) -> int {
    spec_scroll_down(spec_scroll_up(first, index, tiles_x), index, tiles_x, tiles_x * tiles_y)
}

/// The grid of the selected platform's games.
pub struct AppList {
    pub cached_platform: usize,
    pub tiles: Vec<AppTile>,
    pub tiles_x: isize,
    pub tiles_y: isize,
    pub first_visible: isize,
}

/// A bound on the positions in the grid under which its arithmetic stays
/// within `isize`.
pub open spec fn position_cap() -> int {
    isize::MAX / 4
}

/// What the grid's layout must hold for its arithmetic to stay within
/// `isize`: at least one column (with none, scrolling never ends), a first
/// visible position that is not negative, and columns, the number of tiles
/// shown at once and the number of tiles below [`position_cap`].
pub open spec fn layout_ok(list: &AppList) -> bool {
    &&& 0 < list.tiles_x < position_cap()
    &&& -position_cap() < list.tiles_x * list.tiles_y < position_cap()
    &&& 0 <= list.first_visible < position_cap()
    &&& list.tiles@.len() < position_cap()
}

/// The selection and first visible position after moving `amount`
/// visible tiles from `index`, forward or backward; both unchanged if the
/// move would leave the grid.
pub open spec fn spec_increment(list: AppList, index: int, amount: nat, forward: bool) -> (int, int) {
    let dir: int = if forward { 1 } else { -1 };
    match spec_move(spec_visibility(list.tiles@), index, dir, amount) {
        None => (index, list.first_visible as int),
        Some(p) => (p, spec_scroll(list.first_visible as int, p, list.tiles_x as int, list.tiles_y as int)),
    }
}

/// How far, and in which direction, a navigation action moves the
/// selection in the game grid.
pub open spec fn spec_grid_step(action: Actions) -> Option<(nat, bool)> {
    match action {
        Actions::Up => Some((APPS_PER_ROW as nat, false)),
        Actions::Down => Some((APPS_PER_ROW as nat, true)),
        Actions::Left => Some((1nat, false)),
        Actions::Right => Some((1nat, true)),
        _ => None,
    }
}

/// Whether the game grid handles `action`.
pub open spec fn spec_app_list_handled(action: Actions) -> bool {
    match action {
        Actions::Up | Actions::Down | Actions::Left | Actions::Right | Actions::Accept
        | Actions::Info | Actions::Filter | Actions::Back => true,
        _ => false,
    }
}

/// Each tile stands for the game at its own position.
pub open spec fn spec_tiles_indexed(tiles: Seq<AppTile>) -> bool {
    forall|i: int| 0 <= i < tiles.len() ==> #[trigger] tiles[i].index == i
}

/// Whether the grid must be rebuilt to show the selected platform: it
/// shows another platform, or the number of games changed.
pub open spec fn spec_needs_rebuild(list: AppList, state: YaffeState) -> bool {
    list.cached_platform != state.selected_platform
        || list.tiles@.len() != state.platforms@[state.selected_platform as int].apps@.len()
}

impl FocusableWidget for AppList {
    fn get_id(&self) -> (id: WidgetId)
        ensures
            id == WidgetId::AppList,
    {
        WidgetId::AppList
    }
}

/// Scrolling up moves the first visible position by whole rows; when it
/// moves, it stops at the first row that does not lie below `index`.
proof fn lemma_scroll_up_rows(first: int, index: int, tx: int)
    requires
        tx > 0,
    ensures
        (spec_scroll_up(first, index, tx) - first) % tx == 0,
        index < first ==> index - tx < spec_scroll_up(first, index, tx) <= index,
        index >= first ==> spec_scroll_up(first, index, tx) == first,
    decreases
            (if first > index {
                first - index
            } else {
                0
            }),
{
    if index < first {
        lemma_scroll_up_rows(first - tx, index, tx);
        lemma_mod_add_multiples_vanish(spec_scroll_up(first, index, tx) - first, tx);
    } else {
        assert(0int % tx == 0) by (nonlinear_arith)
            requires
                tx > 0,
        ;
    }
}

/// Scrolling down from a position not below `index` moves by whole rows
/// and stops at the first position from which `index` is among the
/// `window` positions shown, still not below `index`.
proof fn lemma_scroll_down_rows(first: int, index: int, tx: int, window: int)
    requires
        tx > 0,
        window >= tx,
        first <= index,
    ensures
        (spec_scroll_down(first, index, tx, window) - first) % tx == 0,
        spec_scroll_down(first, index, tx, window) <= index < spec_scroll_down(first, index, tx, window)
            + window,
    decreases
            (if index - window + 1 - first > 0 {
                index - window + 1 - first
            } else {
                0
            }),
{
    if index > first + window - 1 {
        lemma_scroll_down_rows(first + tx, index, tx, window);
        lemma_mod_sub_multiples_vanish(spec_scroll_down(first, index, tx, window) - first, tx);
    } else {
        assert(0int % tx == 0) by (nonlinear_arith)
            requires
                tx > 0,
        ;
    }
}

/// Scrolling down moves the first visible position by whole rows.
proof fn lemma_scroll_down_rows_any(first: int, index: int, tx: int, window: int)
    requires
        tx > 0,
    ensures
        (spec_scroll_down(first, index, tx, window) - first) % tx == 0,
    decreases
            (if index - window + 1 - first > 0 {
                index - window + 1 - first
            } else {
                0
            }),
{
    if index > first + window - 1 {
        lemma_scroll_down_rows_any(first + tx, index, tx, window);
        lemma_mod_sub_multiples_vanish(spec_scroll_down(first, index, tx, window) - first, tx);
    } else {
        assert(0int % tx == 0) by (nonlinear_arith)
            requires
                tx > 0,
        ;
    }
}

/// With at least one row shown, scrolling to `index` leaves the first
/// visible position a whole number of rows from where it was, at or before
/// `index`, and `index` among the positions shown.
proof fn lemma_scroll_shows(first: int, index: int, tx: int, ty: int)
    requires
        tx > 0,
        ty >= 1,
    ensures
        (spec_scroll(first, index, tx, ty) - first) % tx == 0,
        spec_scroll(first, index, tx, ty) <= index < spec_scroll(first, index, tx, ty) + tx * ty,
{
    assert(tx * ty >= tx) by (nonlinear_arith)
        requires
            tx > 0,
            ty >= 1,
    ;
    let u = spec_scroll_up(first, index, tx);
    lemma_scroll_up_rows(first, index, tx);
    lemma_scroll_down_rows(u, index, tx, tx * ty);
    let d = spec_scroll_down(u, index, tx, tx * ty);
    lemma_add_mod_noop(d - u, u - first, tx);
    assert(0int % tx == 0) by (nonlinear_arith)
        requires
            tx > 0,
    ;
}

/// The position where skipping hidden tiles ends, when inside the grid,
/// holds a visible tile.
proof fn lemma_skip_lands_visible(vis: Seq<bool>, j: int, dir: int)
    requires
        dir == 1 || dir == -1,
        0 <= spec_skip_hidden(vis, j, dir) < vis.len(),
    ensures
        vis[spec_skip_hidden(vis, j, dir)],
    decreases
            (if dir > 0 {
                vis.len() - j
            } else {
                j + 1
            }),
{
    if 0 <= j < vis.len() && !vis[j] {
        lemma_skip_lands_visible(vis, j + dir, dir);
    }
}

/// A move of at least one step that stays in the grid ends on a visible
/// tile.
proof fn lemma_move_lands_visible(vis: Seq<bool>, index: int, dir: int, n: nat)
    requires
        dir == 1 || dir == -1,
        n > 0,
        spec_move(vis, index, dir, n) is Some,
    ensures
        0 <= spec_move(vis, index, dir, n)->0 < vis.len(),
        vis[spec_move(vis, index, dir, n)->0],
{
    let p = spec_move(vis, index, dir, (n - 1) as nat)->0;
    lemma_skip_lands_visible(vis, p + dir, dir);
}

/// Once a sequence of moves has left the grid, further moves do not
/// bring it back.
proof fn lemma_move_stays_out(vis: Seq<bool>, index: int, dir: int, n: nat, m: nat)
    requires
        n <= m,
        spec_move(vis, index, dir, n) is None,
    ensures
        spec_move(vis, index, dir, m) is None,
    decreases m - n,
{
    if n < m {
        lemma_move_stays_out(vis, index, dir, n, (m - 1) as nat);
    }
}

impl AppList {
    /// An empty grid, not yet showing any platform.
    pub fn new() -> (l: AppList)
        ensures
            l.cached_platform == 99999,
            l.tiles@.len() == 0,
            l.tiles_x == 0,
            l.tiles_y == 0,
            l.first_visible == 0,
    {
        AppList { cached_platform: 99999, tiles: Vec::new(), tiles_x: 0, tiles_y: 0, first_visible: 0 }
    }

    /// Moves `amount` visible tiles forward or backward from `index`.
    /// Returns the new index and the first visible position after
    /// scrolling it into view; if the move would leave the grid, returns
    /// `index` and the current first visible position unchanged.
    pub fn increment_index(&self, index: usize, amount: usize, forward: bool) -> (r: (usize, isize))
        requires
            layout_ok(self),
            index < position_cap(),
        ensures
            r.0 == spec_increment(*self, index as int, amount as nat, forward).0,
            r.1 == spec_increment(*self, index as int, amount as nat, forward).1,
            (r.1 - self.first_visible) % (self.tiles_x as int) == 0,
            self.tiles_y >= 1 && spec_move(
                spec_visibility(self.tiles@),
                index as int,
                if forward {
                    1
                } else {
                    -1
                },
                amount as nat,
            ) is Some ==> r.1 <= r.0 < r.1 + self.tiles_x * self.tiles_y,
            amount > 0 && r.0 != index ==> r.0 < self.tiles@.len()
                && self.tiles@[r.0 as int].is_visible_spec(),
    {
        proof {
            let vis = spec_visibility(self.tiles@);
            let dir: int = if forward { 1 } else { -1 };
            let tx = self.tiles_x as int;
            assert(0int % tx == 0) by (nonlinear_arith)
                requires
                    tx > 0,
            ;
            if let Some(p) = spec_move(vis, index as int, dir, amount as nat) {
                if self.tiles_y >= 1 {
                    lemma_scroll_shows(self.first_visible as int, p, tx, self.tiles_y as int);
                } else {
                    lemma_scroll_up_rows(self.first_visible as int, p, tx);
                    lemma_scroll_down_rows_any(
                        spec_scroll_up(self.first_visible as int, p, tx),
                        p,
                        tx,
                        tx * self.tiles_y,
                    );
                    lemma_add_mod_noop(
                        spec_scroll(self.first_visible as int, p, tx, self.tiles_y as int)
                            - spec_scroll_up(self.first_visible as int, p, tx),
                        spec_scroll_up(self.first_visible as int, p, tx) - self.first_visible,
                        tx,
                    );
                }
                if amount > 0 {
                    lemma_move_lands_visible(vis, index as int, dir, amount as nat);
                }
            }
        }
        let ghost vis = spec_visibility(self.tiles@);
        let ghost dir: int = if forward { 1 } else { -1 };
        let ghost cap = position_cap();
        let mut idx = index as isize;
        let old_index = idx;
        let one: isize = if forward { 1 } else { -1 };
        let mut first_visible = self.first_visible;
        let mut k: usize = 0;
        while k < amount
            invariant
                vis == spec_visibility(self.tiles@),
                vis.len() == self.tiles@.len(),
                cap == position_cap(),
                self.tiles@.len() < cap,
                dir == one as int,
                dir == (if forward { 1int } else { -1int }),
                one == 1 || one == -1,
                k <= amount,
                0 <= idx < cap,
                index < cap,
                old_index as int == index as int,
                first_visible == self.first_visible,
                0int % (self.tiles_x as int) == 0,
                spec_move(vis, index as int, dir, k as nat) == Some(idx as int),
            decreases amount - k,
        {
            let mut new_index = idx + one;
            while new_index >= 0 && (new_index as usize) < self.tiles.len()
                && !self.tiles[new_index as usize].is_visible()
                invariant
                    vis == spec_visibility(self.tiles@),
                    vis.len() == self.tiles@.len(),
                    cap == position_cap(),
                    self.tiles@.len() < cap,
                    dir == one as int,
                    one == 1 || one == -1,
                    -1 <= new_index <= cap + 1,
                    0 <= idx < cap,
                    spec_skip_hidden(vis, new_index as int, dir) == spec_skip_hidden(
                        vis,
                        idx + dir,
                        dir,
                    ),
                decreases
                        (if one > 0 {
                            cap + 1 - new_index
                        } else {
                            new_index + 1
                        }),
            {
                new_index = new_index + one;
            }
            if new_index < 0 || new_index as usize >= self.tiles.len() {
                proof {
                    assert(spec_skip_hidden(vis, new_index as int, dir) == new_index as int);
                    assert(spec_move(vis, index as int, dir, (k + 1) as nat) is None);
                    lemma_move_stays_out(vis, index as int, dir, (k + 1) as nat, amount as nat);
                }
                return (old_index as usize, first_visible);
            }
            idx = new_index;
            k = k + 1;
        }
        let tx = self.tiles_x;
        let ty = self.tiles_y;
        let ghost up_start = first_visible as int;
        while idx < first_visible
            invariant
                0 < tx < cap,
                cap == position_cap(),
                0 <= idx < cap,
                -cap < first_visible < cap,
                spec_scroll_up(first_visible as int, idx as int, tx as int) == spec_scroll_up(
                    up_start,
                    idx as int,
                    tx as int,
                ),
            decreases first_visible - idx + tx,
        {
            first_visible = first_visible - tx;
        }
        let window = tx * ty;
        let ghost down_start = first_visible as int;
        while idx > first_visible + window - 1
            invariant
                0 < tx < cap,
                window == tx * ty,
                -cap < window < cap,
                cap == position_cap(),
                0 <= idx < cap,
                -cap < first_visible,
                first_visible <= idx - window + tx || first_visible < cap,
                spec_scroll_down(first_visible as int, idx as int, tx as int, window as int)
                    == spec_scroll_down(down_start, idx as int, tx as int, window as int),
            decreases idx - window + 1 - first_visible + tx,
        {
            first_visible = first_visible + tx;
        }
        (idx as usize, first_visible)
    }

    /// Brings the grid up to date with `state`: rebuilds the tiles when the
    /// selected platform or its number of games changed, focuses the tile
    /// of the selected game only, and shows exactly the tiles whose games
    /// pass the search filter. Returns whether the selected tile just
    /// became focused, which restarts its grow animation.
    pub fn update(&mut self, state: &YaffeState) -> (started: bool)
        requires
            state.selected_platform < state.platforms@.len(),
            state.search_info.wf(),
            spec_tiles_indexed(old(self).tiles@),
        ensures
            ({
                let apps = state.platforms@[state.selected_platform as int].apps@;
                let rebuilt = spec_needs_rebuild(*old(self), *state);
                &&& final(self).tiles@.len() == apps.len()
                &&& spec_tiles_indexed(final(self).tiles@)
                &&& final(self).cached_platform == (if rebuilt {
                    state.selected_platform
                } else {
                    old(self).cached_platform
                })
                &&& forall|i: int|
                    0 <= i < apps.len() ==> {
                        &&& (#[trigger] final(self).tiles@[i]).focused == (i == state.selected_app)
                        &&& final(self).tiles@[i].is_visible_spec() == state.search_info.spec_is_visible(
                            apps[i].name@,
                            apps[i].players,
                        )
                    }
                &&& started == (state.selected_app < apps.len() && (rebuilt
                    || !old(self).tiles@[state.selected_app as int].focused))
            }),
            final(self).tiles_x == old(self).tiles_x,
            final(self).tiles_y == old(self).tiles_y,
            final(self).first_visible == old(self).first_visible,
    {
        let apps = &state.platforms[state.selected_platform].apps;
        let n = apps.len();
        let rebuild = self.cached_platform != state.selected_platform || self.tiles.len() != n;
        if rebuild {
            self.tiles = Vec::new();
            let mut i: usize = 0;
            while i < n
                invariant
                    i <= n,
                    self.tiles@.len() == i,
                    spec_tiles_indexed(self.tiles@),
                    forall|j: int| 0 <= j < i ==> !(#[trigger] self.tiles@[j]).focused,
                    self.tiles_x == old(self).tiles_x,
                    self.tiles_y == old(self).tiles_y,
                    self.first_visible == old(self).first_visible,
                    self.cached_platform == old(self).cached_platform,
                decreases n - i,
            {
                self.tiles.push(AppTile::new(i));
                i = i + 1;
            }
            self.cached_platform = state.selected_platform;
        }
        let ghost before = self.tiles@;
        assert(!rebuild ==> before == old(self).tiles@);
        assert(rebuild ==> forall|j: int| 0 <= j < n ==> !(#[trigger] before[j]).focused);
        let mut started = false;
        let mut i: usize = 0;
        while i < n
            invariant
                i <= n,
                n == apps@.len(),
                state.selected_platform < state.platforms@.len(),
                apps@ == state.platforms@[state.selected_platform as int].apps@,
                state.search_info.wf(),
                self.tiles@.len() == n,
                before.len() == n,
                spec_tiles_indexed(self.tiles@),
                self.tiles_x == old(self).tiles_x,
                self.tiles_y == old(self).tiles_y,
                self.first_visible == old(self).first_visible,
                self.cached_platform == (if rebuild {
                    state.selected_platform
                } else {
                    old(self).cached_platform
                }),
                forall|j: int| i <= j < n ==> #[trigger] self.tiles@[j] == before[j],
                forall|j: int|
                    0 <= j < i ==> {
                        &&& (#[trigger] self.tiles@[j]).focused == (j == state.selected_app)
                        &&& self.tiles@[j].is_visible_spec() == state.search_info.spec_is_visible(
                            apps@[j].name@,
                            apps@[j].players,
                        )
                    },
                started == (state.selected_app < i && !before[state.selected_app as int].focused),
            decreases n - i,
        {
            let mut t = self.tiles[i];
            let s = t.update(state.selected_app);
            t.apply_filter(&state.search_info, apps);
            self.tiles.set(i, t);
            started = started || s;
            i = i + 1;
        }
        started
    }

    /// Handles an action while the game grid has focus. Up and down move
    /// the selection a row of visible games, left and right one visible
    /// game; accept asks to start the selected game; info focuses the info
    /// pane, filter the search bar; back returns focus.
    pub fn action(&mut self, state: &mut YaffeState, action: &Actions, handler: &mut DeferredAction) -> (handled: bool)
        requires
            layout_ok(old(self)),
            old(state).selected_app < position_cap(),
        ensures
            handled == spec_app_list_handled(*action),
            match spec_grid_step(*action) {
                Some((n, forward)) => {
                    &&& final(state).selected_app == spec_increment(
                        *old(self),
                        old(state).selected_app as int,
                        n,
                        forward,
                    ).0
                    &&& final(self).first_visible == spec_increment(
                        *old(self),
                        old(state).selected_app as int,
                        n,
                        forward,
                    ).1
                },
                None => {
                    &&& final(state).selected_app == old(state).selected_app
                    &&& final(self).first_visible == old(self).first_visible
                },
            },
            final(self).tiles == old(self).tiles,
            final(self).tiles_x == old(self).tiles_x,
            final(self).tiles_y == old(self).tiles_y,
            final(self).cached_platform == old(self).cached_platform,
            final(state).platforms == old(state).platforms,
            final(state).selected_platform == old(state).selected_platform,
            final(state).focused_widget == old(state).focused_widget,
            final(state).search_info == old(state).search_info,
            final(state).restricted_mode == old(state).restricted_mode,
            final(state).refresh_list == old(state).refresh_list,
            final(state).running == old(state).running,
            final(handler).focus == (match *action {
                Actions::Info => Some(FocusType::Focus(WidgetId::InfoPane)),
                Actions::Filter => Some(FocusType::Focus(WidgetId::SearchBar)),
                Actions::Back => Some(FocusType::Revert),
                _ => old(handler).focus,
            }),
            final(handler).request == (match *action {
                Actions::Accept => Some(AppRequest::StartGame),
                _ => old(handler).request,
            }),
            final(handler).load_plugin == old(handler).load_plugin,
            final(handler).message == old(handler).message,
    {
        let step: Option<(usize, bool)> = match action {
            Actions::Up => Some((APPS_PER_ROW, false)),
            Actions::Down => Some((APPS_PER_ROW, true)),
            Actions::Left => Some((1, false)),
            Actions::Right => Some((1, true)),
            _ => None,
        };
        if let Some((amount, forward)) = step {
            let (index, visible) = self.increment_index(state.selected_app, amount, forward);
            state.selected_app = index;
            self.first_visible = visible;
            return true;
        }
        match action {
            Actions::Accept => {
                handler.request(AppRequest::StartGame);
                true
            },
            Actions::Info => {
                handler.focus_widget(WidgetId::InfoPane);
                true
            },
            Actions::Filter => {
                handler.focus_widget(WidgetId::SearchBar);
                true
            },
            Actions::Back => {
                handler.revert_focus();
                true
            },
            _ => false,
        }
    }
}

/// The list of platforms at the side of the window.
pub struct PlatformList {}

impl FocusableWidget for PlatformList {
    fn get_id(&self) -> (id: WidgetId)
        ensures
            id == WidgetId::PlatformList,
    {
        WidgetId::PlatformList
    }
}

/// Whether the platform list can handle `action` in `state`: moving down
/// needs a platform, showing details needs the selection to be one.
pub open spec fn platform_action_ok(state: &YaffeState, action: Actions) -> bool {
    &&& action is Down ==> state.platforms@.len() > 0
    &&& action is Info ==> state.selected_platform < state.platforms@.len()
}

/// The selected platform after `action` in the platform list.
pub open spec fn spec_platform_selection(state: &YaffeState, action: Actions) -> usize {
    match action {
        Actions::Down => if state.selected_platform + 1 < state.platforms@.len() {
            (state.selected_platform + 1) as usize
        } else {
            state.selected_platform
        },
        Actions::Up => if state.selected_platform > 0 {
            (state.selected_platform - 1) as usize
        } else {
            state.selected_platform
        },
        _ => state.selected_platform,
    }
}

/// Up selects the platform just above the selected one and Down the one
/// just below, when there is one; otherwise the selection stays. Down and
/// then Up come back to the platform selected before.
pub proof fn lemma_platform_up_down(state: YaffeState)
    requires
        state.selected_platform < state.platforms@.len() <= usize::MAX,
    ensures
        state.selected_platform > 0 ==> spec_platform_selection(&state, Actions::Up)
            == state.selected_platform - 1,
        state.selected_platform == 0 ==> spec_platform_selection(&state, Actions::Up) == 0,
        state.selected_platform + 1 < state.platforms@.len() ==> spec_platform_selection(
            &state,
            Actions::Down,
        ) == state.selected_platform + 1,
        state.selected_platform + 1 == state.platforms@.len() ==> spec_platform_selection(
            &state,
            Actions::Down,
        ) == state.selected_platform,
        spec_platform_selection(
            &YaffeState { selected_platform: spec_platform_selection(&state, Actions::Down), ..state },
            Actions::Up,
        ) == (if state.selected_platform + 1 < state.platforms@.len() {
            state.selected_platform as int
        } else if state.selected_platform > 0 {
            state.selected_platform - 1
        } else {
            0
        }),
{
}

impl PlatformList {
    pub fn new() -> (l: PlatformList) {
        PlatformList {  }
    }

    /// Handles an action while the platform list has focus. Up and down
    /// select the neighbouring platform, if any, which selects its first
    /// game and reloads its plugin items; accept moves focus to the game
    /// grid; info asks to show the details of an emulator platform.
    pub fn action(&mut self, state: &mut YaffeState, action: &Actions, handler: &mut DeferredAction) -> (handled: bool)
        requires
            platform_action_ok(old(state), *action),
        ensures
            handled == (match *action {
                Actions::Down | Actions::Up | Actions::Accept | Actions::Info => true,
                _ => false,
            }),
            final(state).selected_platform == spec_platform_selection(old(state), *action),
            final(state).selected_app == (if final(state).selected_platform
                != old(state).selected_platform {
                0
            } else {
                old(state).selected_app
            }),
            final(handler).load_plugin == (if final(state).selected_platform
                != old(state).selected_platform {
                Some(NavigationAction::Initialize)
            } else {
                old(handler).load_plugin
            }),
            final(handler).focus == (if *action is Accept {
                Some(FocusType::Focus(WidgetId::AppList))
            } else {
                old(handler).focus
            }),
            final(handler).request == (if *action is Info
                && old(state).platforms@[old(state).selected_platform as int].kind
                == GroupType::Emulator {
                Some(AppRequest::PlatformInfo)
            } else {
                old(handler).request
            }),
            final(handler).message == old(handler).message,
            final(state).platforms == old(state).platforms,
            final(state).focused_widget == old(state).focused_widget,
            final(state).search_info == old(state).search_info,
            final(state).restricted_mode == old(state).restricted_mode,
            final(state).refresh_list == old(state).refresh_list,
            final(state).running == old(state).running,
    {
        match action {
            Actions::Down => {
                if state.selected_platform < state.platforms.len() - 1 {
                    state.selected_platform = state.selected_platform + 1;
                    state.selected_app = 0;
                    handler.load_plugin(NavigationAction::Initialize);
                }
                true
            },
            Actions::Up => {
                if state.selected_platform > 0 {
                    state.selected_platform = state.selected_platform - 1;
                    state.selected_app = 0;
                    handler.load_plugin(NavigationAction::Initialize);
                }
                true
            },
            Actions::Accept => {
                handler.focus_widget(WidgetId::AppList);
                true
            },
            Actions::Info => {
                let platform = state.get_platform();
                if let GroupType::Emulator = platform.kind {
                    handler.request(AppRequest::PlatformInfo);
                }
                true
            },
            _ => false,
        }
    }
}

/// The pane that shows the details of the selected game.
pub struct InfoPane {}

impl FocusableWidget for InfoPane {
    fn get_id(&self) -> (id: WidgetId)
        ensures
            id == WidgetId::InfoPane,
    {
        WidgetId::InfoPane
    }
}

impl InfoPane {
    pub fn new() -> (p: InfoPane) {
        InfoPane {  }
    }

    /// Back returns focus; the pane handles nothing else.
    pub fn action(&mut self, state: &mut YaffeState, action: &Actions, handler: &mut DeferredAction) -> (handled: bool)
        ensures
            handled == (*action is Back),
            *final(state) == *old(state),
            final(handler).focus == (if *action is Back {
                Some(FocusType::Revert)
            } else {
                old(handler).focus
            }),
            final(handler).load_plugin == old(handler).load_plugin,
            final(handler).message == old(handler).message,
            final(handler).request == old(handler).request,
    {
        match action {
            Actions::Back => {
                handler.revert_focus();
                true
            },
            _ => false,
        }
    }
}

/// The button hints of the toolbar, from right to left: with the game
/// grid focused, filtering and going back; with the platform list
/// focused, the platform's settings (but for the recent games) and
/// selecting it.
pub open spec fn spec_toolbar_hints(focused: Option<WidgetId>, kind: GroupType) -> Seq<(Images, Seq<char>)> {
    match focused {
        Some(WidgetId::AppList) => seq![(Images::ButtonY, "Filter"@), (Images::ButtonB, "Back"@)],
        Some(WidgetId::PlatformList) => if kind != GroupType::Recents {
            seq![(Images::ButtonX, "Settings"@), (Images::ButtonA, "Select"@)]
        } else {
            seq![(Images::ButtonA, "Select"@)]
        },
        _ => Seq::empty(),
    }
}

/// The button hints of the toolbar for the focused widget and the kind of
/// the selected platform (see [`spec_toolbar_hints`]).
pub fn toolbar_hints(focused: Option<WidgetId>, kind: GroupType) -> (r: Vec<(Images, String)>)
    ensures
        r@.len() == spec_toolbar_hints(focused, kind).len(),
        forall|i: int|
            0 <= i < r@.len() ==> (#[trigger] r@[i]).0 == spec_toolbar_hints(focused, kind)[i].0
                && r@[i].1@ == spec_toolbar_hints(focused, kind)[i].1,
{
    let mut r: Vec<(Images, String)> = Vec::new();
    match focused {
        Some(WidgetId::AppList) => {
            r.push((Images::ButtonY, String::from_str("Filter")));
            r.push((Images::ButtonB, String::from_str("Back")));
        },
        Some(WidgetId::PlatformList) => {
            if kind != GroupType::Recents {
                r.push((Images::ButtonX, String::from_str("Settings")));
            }
            r.push((Images::ButtonA, String::from_str("Select")));
        },
        _ => {},
    }
    r
}

} // verus!
