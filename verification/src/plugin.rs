//! The plugin interface: items a plugin lists and how the launcher
//! navigates through a plugin's pages.
use vstd::prelude::*;
use crate::state::{GroupType, Tile, YaffeState, spec_is_plugin_tile};

verus! {

/// How the items of a plugin are (re)loaded.
#[derive(Copy, Clone, Debug, PartialEq, Eq, Structural)]
pub enum NavigationAction {
    /// Start over from the plugin's first page.
    Initialize,
    /// Reload the current page.
    Refresh,
    /// Fetch the next page and append it.
    Fetch,
    /// Go back one level.
    Back,
}

} // verus!

verus! {

/// `std::path::PathBuf`, carried through the library without being
/// inspected.
#[verifier::external_type_specification]
#[verifier::external_body]
pub struct ExPathBuf(std::path::PathBuf);

/// Where an image lives: in a file or behind a URL.
#[derive(Debug)]
pub enum PathType {
    File(std::path::PathBuf),
    Url(std::path::PathBuf),
}

/// An item listed by a plugin.
pub struct YaffePluginItem {
    pub name: String,
    pub path: String,
    pub thumbnail: PathType,
    pub restricted: bool,
    pub description: String,
}

impl YaffePluginItem {
    pub fn new(
        name: String,
        path: String,
        thumbnail: PathType,
        restricted: bool,
        description: String,
    ) -> (item: YaffePluginItem)
        ensures
            item.name == name,
            item.path == path,
            item.thumbnail == thumbnail,
            item.restricted == restricted,
            item.description == description,
    {
        YaffePluginItem { name, path, thumbnail, restricted, description }
    }
}

/// One page of items loaded by a plugin, and the token of the next page
/// (empty when there is none).
pub struct LoadedItems {
    pub results: Vec<YaffePluginItem>,
    pub next_page: String,
}

impl LoadedItems {
    /// A page of results followed by the page `next_page`.
    pub fn next(results: Vec<YaffePluginItem>, next_page: String) -> (r: Result<
        LoadedItems,
        String,
    >)
        ensures
            r matches Ok(l) && l.results == results && l.next_page == next_page,
    {
        Ok(LoadedItems { results, next_page })
    }

    /// The last page of results.
    pub fn finish(results: Vec<YaffePluginItem>) -> (r: Result<LoadedItems, String>)
        ensures
            r matches Ok(l) && l.results == results && l.next_page@.len() == 0,
    {
        Ok(LoadedItems { results, next_page: String::new() })
    }
}

} // verus!

verus! {

/// The path of opened entries once `kind` is applied: initializing returns
/// to the top level, going back leaves the last opened entry.
pub open spec fn spec_navigation_after(state: Seq<String>, kind: NavigationAction) -> Seq<String> {
    match kind {
        NavigationAction::Initialize => Seq::<String>::empty(),
        NavigationAction::Back => if state.len() > 0 {
            state.drop_last()
        } else {
            state
        },
        _ => state,
    }
}

/// Whether the listing must be loaded once `kind` is applied: initializing
/// and refreshing reload, fetching keeps what was pending, and going back
/// reloads unless that reaches the top level.
pub open spec fn spec_needs_load_after(needs_load: bool, state: Seq<String>, kind: NavigationAction) -> bool {
    match kind {
        NavigationAction::Initialize | NavigationAction::Refresh => true,
        NavigationAction::Fetch => needs_load,
        NavigationAction::Back => spec_navigation_after(state, kind).len() > 0,
    }
}

/// Where a plugin's listing stands: whether it must be (re)loaded, the
/// token of the next page, and the path of entries the user opened.
pub struct PluginNavigation {
    pub needs_load: bool,
    pub next_page: String,
    pub navigation_state: Vec<String>,
}

impl PluginNavigation {
    /// A listing that has not been loaded yet, at the top level.
    pub fn new() -> (n: PluginNavigation)
        ensures
            n.needs_load,
            n.next_page@.len() == 0,
            n.navigation_state@.len() == 0,
    {
        PluginNavigation { needs_load: true, next_page: String::new(), navigation_state: Vec::new() }
    }

    /// Applies `kind` before the plugin is asked for items: initializing
    /// returns to the top level and reloads, refreshing reloads, going back
    /// leaves the opened entry and reloads unless that reaches the top
    /// level, and fetching continues the listing. Returns whether the
    /// plugin must now be asked for items.
    pub fn prepare_load(&mut self, kind: NavigationAction) -> (call: bool)
        ensures
            call == final(self).needs_load,
            final(self).next_page == old(self).next_page,
            final(self).navigation_state@ == spec_navigation_after(
                old(self).navigation_state@,
                kind,
            ),
            final(self).needs_load == spec_needs_load_after(
                old(self).needs_load,
                old(self).navigation_state@,
                kind,
            ),
    {
        match kind {
            NavigationAction::Initialize => {
                self.navigation_state = Vec::new();
                self.needs_load = true;
            },
            NavigationAction::Refresh => {
                self.needs_load = true;
            },
            NavigationAction::Fetch => {},
            NavigationAction::Back => {
                self.navigation_state.pop();
                self.needs_load = self.navigation_state.len() > 0;
            },
        }
        self.needs_load
    }

    /// Takes the plugin's answer: on success the listing continues at the
    /// page the plugin named, and more must be loaded exactly when it named
    /// one; a failure is passed on and changes nothing.
    pub fn finish_load(&mut self, result: Result<LoadedItems, String>) -> (r: Result<
        Vec<YaffePluginItem>,
        String,
    >)
        ensures
            match result {
                Ok(loaded) => {
                    &&& r == Ok::<Vec<YaffePluginItem>, String>(loaded.results)
                    &&& final(self).next_page == loaded.next_page
                    &&& final(self).needs_load == (loaded.next_page@.len() > 0)
                    &&& final(self).navigation_state == old(self).navigation_state
                },
                Err(e) => r == Err::<Vec<YaffePluginItem>, String>(e) && *final(self) == *old(
                    self,
                ),
            },
    {
        match result {
            Ok(results) => {
                self.next_page = results.next_page;
                self.needs_load = !self.next_page.as_str().is_empty();
                Ok(results.results)
            },
            Err(s) => Err(s),
        }
    }

    /// Opens the entry the plugin answered a selection with.
    pub fn open(&mut self, state: String)
        ensures
            final(self).navigation_state@ == old(self).navigation_state@.push(state),
            final(self).needs_load == old(self).needs_load,
            final(self).next_page == old(self).next_page,
    {
        self.navigation_state.push(state);
    }
}

/// Opening an entry and then going back returns to the path of entries
/// opened before, and reloads the listing unless that path is the top
/// level.
pub proof fn lemma_open_then_back(state: Seq<String>, entry: String, needs_load: bool)
    ensures
        spec_navigation_after(state.push(entry), NavigationAction::Back) == state,
        spec_needs_load_after(needs_load, state.push(entry), NavigationAction::Back) == (state.len()
            > 0),
{
    assert(state.push(entry).drop_last() =~= state);
}

/// Whether `after` is `before` once the items `items` a plugin loaded for
/// `kind` are added to the selected platform: they replace its tiles,
/// unless they are the next page of the same listing, which is appended;
/// everything else stays.
pub open spec fn spec_plugin_items_added(
    before: YaffeState,
    after: YaffeState,
    kind: NavigationAction,
    items: Seq<YaffePluginItem>,
) -> bool {
    let sel = before.selected_platform as int;
    let kept = if kind == NavigationAction::Fetch {
        before.platforms@[sel].apps@
    } else {
        Seq::<Tile>::empty()
    };
    let apps = after.platforms@[sel].apps@;
    &&& apps.len() == kept.len() + items.len()
    &&& forall|k: int| 0 <= k < kept.len() ==> apps[k] == kept[k]
    &&& forall|j: int|
        0 <= j < items.len() ==> spec_is_plugin_tile(
            #[trigger] apps[kept.len() + j],
            before.selected_platform,
            items[j],
        )
    &&& after.platforms@.len() == before.platforms@.len()
    &&& forall|p: int|
        0 <= p < before.platforms@.len() && p != sel ==> after.platforms@[p] == before.platforms@[p]
    &&& after.platforms@[sel].name == before.platforms@[sel].name
    &&& after.platforms@[sel].id == before.platforms@[sel].id
    &&& after.platforms@[sel].kind == before.platforms@[sel].kind
    &&& after.platforms@[sel].plugin_index == before.platforms@[sel].plugin_index
    &&& after.selected_platform == before.selected_platform
    &&& after.selected_app == before.selected_app
    &&& after.focused_widget == before.focused_widget
    &&& after.search_info == before.search_info
    &&& after.restricted_mode == before.restricted_mode
    &&& after.refresh_list == before.refresh_list
    &&& after.running == before.running
}

/// Takes the answer `loaded` of the selected platform's plugin to a load
/// for `kind`. A platform that is not a plugin's is left as it was, and
/// its plugin is not to be asked; a failure is handed back, to be shown,
/// and changes nothing; the items loaded replace the platform's tiles,
/// unless they are the next page of the same listing, which is appended.
pub fn load_plugin_items(
    kind: NavigationAction,
    state: &mut YaffeState,
    loaded: Result<Vec<YaffePluginItem>, String>,
) -> (r: Result<(), String>)
    requires
        old(state).selected_platform < old(state).platforms@.len(),
    ensures
        old(state).platforms@[old(state).selected_platform as int].kind != GroupType::Plugin ==> {
            &&& *final(state) == *old(state)
            &&& r == Ok::<(), String>(())
        },
        old(state).platforms@[old(state).selected_platform as int].kind == GroupType::Plugin ==> match loaded {
            Err(e) => *final(state) == *old(state) && r == Err::<(), String>(e),
            Ok(items) => r == Ok::<(), String>(()) && spec_plugin_items_added(
                *old(state),
                *final(state),
                kind,
                items@,
            ),
        },
{
    if state.platforms[state.selected_platform].kind != GroupType::Plugin {
        return Ok(());
    }
    match loaded {
        Err(e) => Err(e),
        Ok(items) => {
            add_plugin_items(kind, state, items);
            Ok(())
        },
    }
}

/// Adds the items a plugin loaded for `kind` to the selected platform (see
/// [`spec_plugin_items_added`]).
fn add_plugin_items(kind: NavigationAction, state: &mut YaffeState, items: Vec<YaffePluginItem>)
    requires
        old(state).selected_platform < old(state).platforms@.len(),
    ensures
        spec_plugin_items_added(*old(state), *final(state), kind, items@),
{
    let sel = state.selected_platform;
    let mut platform = state.platforms.remove(sel);
    if kind != NavigationAction::Fetch {
        platform.apps = Vec::new();
    }
    let ghost before = platform.apps@;
    let ghost all = items@;
    let ghost selected = old(state).platforms@[sel as int];
    let ghost removed = *state;
    let mut items = items;
    let total = items.len();
    let mut j: usize = 0;
    while items.len() > 0
        invariant
            *state == removed,
            platform.name == selected.name,
            platform.id == selected.id,
            platform.kind == selected.kind,
            platform.plugin_index == selected.plugin_index,
            all.len() == total,
            j + items@.len() == all.len(),
            items@ == all.skip(j as int),
            platform.apps@.len() == before.len() + j,
            forall|k: int| 0 <= k < before.len() ==> platform.apps@[k] == before[k],
            forall|i: int|
                0 <= i < j ==> spec_is_plugin_tile(
                    #[trigger] platform.apps@[before.len() + i],
                    sel,
                    all[i],
                ),
        decreases items@.len(),
    {
        let item = items.remove(0);
        assert(item == all[j as int]);
        let ghost prev = platform.apps@;
        platform.apps.push(Tile::plugin_item(sel, item));
        assert(platform.apps@[before.len() + j] == platform.apps@.last());
        assert(items@ =~= all.skip(j + 1));
        j = j + 1;
    }
    state.platforms.insert(sel, platform);
    assert(state.platforms@[sel as int] == platform);
}

} // verus!
