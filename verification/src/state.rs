//! The launcher's platforms, the games and applications they list, and
//! the navigation state shared by the widgets.
use vstd::prelude::*;
use crate::plugin::PathType;
use crate::search::SearchInfo;
use crate::restrictions::RestrictedMode;
use crate::ui::WidgetId;
use crate::text::str_eq;
use crate::plugin::YaffePluginItem;
use crate::data::GameInfo;

verus! {

/// The kind of a platform list entry.
#[derive(Copy, Clone, Debug, PartialEq, Eq, Structural)]
pub enum PlatformType {
    Emulator,
    Plugin,
    Recents,
}

/// The kind of a group of tiles.
#[derive(Copy, Clone, Debug, PartialEq, Eq, Structural)]
pub enum GroupType {
    Emulator,
    Plugin,
    Recents,
}

/// An ESRB age rating.
#[derive(Copy, Clone, Debug, PartialEq, Eq, Structural)]
pub enum Rating {
    Everyone,
    Everyone10,
    Teen,
    Mature,
    AdultOnly,
    NotRated,
}

/// The number a rating is stored as.
pub open spec fn spec_rating_code(r: Rating) -> i64 {
    match r {
        Rating::Everyone => 0,
        Rating::Everyone10 => 1,
        Rating::Teen => 2,
        Rating::Mature => 3,
        Rating::AdultOnly => 4,
        Rating::NotRated => 5,
    }
}

/// The rating stored as `v`, if any.
pub open spec fn spec_rating_from_code(v: i64) -> Option<Rating> {
    if v == 0 {
        Some(Rating::Everyone)
    } else if v == 1 {
        Some(Rating::Everyone10)
    } else if v == 2 {
        Some(Rating::Teen)
    } else if v == 3 {
        Some(Rating::Mature)
    } else if v == 4 {
        Some(Rating::AdultOnly)
    } else if v == 5 {
        Some(Rating::NotRated)
    } else {
        None
    }
}

/// The text a rating is shown as.
pub open spec fn spec_rating_name(r: Rating) -> Seq<char> {
    match r {
        Rating::Everyone => "E - Everyone"@,
        Rating::Everyone10 => "E10+ - Everyone 10+"@,
        Rating::Teen => "T - Teen"@,
        Rating::Mature => "M - Mature 17+"@,
        Rating::AdultOnly => "AO - Adult Only 18+"@,
        Rating::NotRated => "Not Rated"@,
    }
}

/// The rating shown as `s`, if any.
pub open spec fn spec_rating_from_name(s: Seq<char>) -> Option<Rating> {
    if s == "E - Everyone"@ {
        Some(Rating::Everyone)
    } else if s == "E10+ - Everyone 10+"@ {
        Some(Rating::Everyone10)
    } else if s == "T - Teen"@ {
        Some(Rating::Teen)
    } else if s == "M - Mature 17+"@ {
        Some(Rating::Mature)
    } else if s == "AO - Adult Only 18+"@ {
        Some(Rating::AdultOnly)
    } else if s == "Not Rated"@ {
        Some(Rating::NotRated)
    } else {
        None
    }
}

impl Rating {
    /// The number the rating is stored as in the database.
    pub fn to_i64(&self) -> (v: i64)
        ensures
            v == spec_rating_code(*self),
    {
        match self {
            Rating::Everyone => 0,
            Rating::Everyone10 => 1,
            Rating::Teen => 2,
            Rating::Mature => 3,
            Rating::AdultOnly => 4,
            Rating::NotRated => 5,
        }
    }

    /// The rating stored as `v`; `None` for any other number.
    pub fn from_i64(v: i64) -> (r: Option<Rating>)
        ensures
            r == spec_rating_from_code(v),
    {
        if v == 0 {
            Some(Rating::Everyone)
        } else if v == 1 {
            Some(Rating::Everyone10)
        } else if v == 2 {
            Some(Rating::Teen)
        } else if v == 3 {
            Some(Rating::Mature)
        } else if v == 4 {
            Some(Rating::AdultOnly)
        } else if v == 5 {
            Some(Rating::NotRated)
        } else {
            None
        }
    }

    /// The text the rating is shown as.
    pub fn to_display(&self) -> (s: String)
        ensures
            s@ == spec_rating_name(*self),
    {
        match self {
            Rating::Everyone => String::from_str("E - Everyone"),
            Rating::Everyone10 => String::from_str("E10+ - Everyone 10+"),
            Rating::Teen => String::from_str("T - Teen"),
            Rating::Mature => String::from_str("M - Mature 17+"),
            Rating::AdultOnly => String::from_str("AO - Adult Only 18+"),
            Rating::NotRated => String::from_str("Not Rated"),
        }
    }

    /// The rating shown as `v`; `None` for any other text.
    pub fn from_name(v: &str) -> (r: Option<Rating>)
        ensures
            r == spec_rating_from_name(v@),
    {
        if str_eq(v, "E - Everyone") {
            Some(Rating::Everyone)
        } else if str_eq(v, "E10+ - Everyone 10+") {
            Some(Rating::Everyone10)
        } else if str_eq(v, "T - Teen") {
            Some(Rating::Teen)
        } else if str_eq(v, "M - Mature 17+") {
            Some(Rating::Mature)
        } else if str_eq(v, "AO - Adult Only 18+") {
            Some(Rating::AdultOnly)
        } else if str_eq(v, "Not Rated") {
            Some(Rating::NotRated)
        } else {
            None
        }
    }
}

/// A rating read back from the number it is stored as is the same rating.
pub proof fn lemma_rating_code_round_trip(r: Rating)
    ensures
        spec_rating_from_code(spec_rating_code(r)) == Some(r),
{
}

/// A rating read back from the text it is shown as is the same rating.
pub proof fn lemma_rating_name_round_trip(r: Rating)
    ensures
        spec_rating_from_name(spec_rating_name(r)) == Some(r),
{
    reveal_strlit("E - Everyone");
    reveal_strlit("E10+ - Everyone 10+");
    reveal_strlit("T - Teen");
    reveal_strlit("M - Mature 17+");
    reveal_strlit("AO - Adult Only 18+");
    reveal_strlit("Not Rated");
    let e = "E - Everyone"@;
    let e10 = "E10+ - Everyone 10+"@;
    let t = "T - Teen"@;
    let m = "M - Mature 17+"@;
    let ao = "AO - Adult Only 18+"@;
    let nr = "Not Rated"@;
    assert(e.len() != e10.len() && e[0] != t[0] && e[0] != m[0] && e[0] != ao[0] && e[0] != nr[0]);
    assert(e10[0] != t[0] && e10[0] != m[0] && e10[0] != ao[0] && e10[0] != nr[0]);
    assert(t[0] != m[0] && t[0] != ao[0] && t[0] != nr[0]);
    assert(m[0] != ao[0] && m[0] != nr[0]);
    assert(ao[0] != nr[0]);
}


/// A game or application in a tile group.
pub struct Tile {
    pub file: String,
    pub name: String,
    pub description: String,
    pub rating: String,
    pub released: String,
    pub players: u8,
    pub platform_index: usize,
    pub boxart: PathType,
}

/// Whether `t` is the tile of the plugin item `item` on the platform at
/// `platform_index`.
pub open spec fn spec_is_plugin_tile(t: Tile, platform_index: usize, item: YaffePluginItem) -> bool {
    &&& t.file == item.path
    &&& t.name == item.name
    &&& t.description == item.description
    &&& t.released@.len() == 0
    &&& t.platform_index == platform_index
    &&& t.boxart == item.thumbnail
    &&& t.players == 1
    &&& t.rating@ == (if item.restricted {
        "Restricted"@
    } else {
        "Allowed"@
    })
}

/// Whether `t` is the tile of the stored game `info` on the platform at
/// `index`, with its box art in the file `boxart`.
pub open spec fn spec_is_game_tile(t: Tile, info: GameInfo, index: usize, boxart: std::path::PathBuf) -> bool {
    &&& t.file == info.filename
    &&& t.name == info.name
    &&& t.description == info.overview
    &&& t.platform_index == index
    &&& t.boxart == PathType::File(boxart)
    &&& t.released == info.released
    &&& t.players == info.players as u8
    &&& t.rating@ == spec_rating_name(spec_rating_from_code(info.rating)->0)
}

impl Tile {
    /// The tile of an item listed by a plugin. The item's thumbnail must
    /// already be resolved to where it can be loaded from.
    pub fn plugin_item(platform_index: usize, item: YaffePluginItem) -> (t: Tile)
        ensures
            spec_is_plugin_tile(t, platform_index, item),
            t.file == item.path,
            t.name == item.name,
            t.description == item.description,
            t.released@.len() == 0,
            t.platform_index == platform_index,
            t.boxart == item.thumbnail,
            t.players == 1,
            t.rating@ == (if item.restricted {
                "Restricted"@
            } else {
                "Allowed"@
            }),
    {
        let rating = if !item.restricted {
            String::from_str("Allowed")
        } else {
            String::from_str("Restricted")
        };
        Tile {
            file: item.path,
            name: item.name,
            description: item.description,
            released: String::new(),
            platform_index,
            boxart: item.thumbnail,
            players: 1,
            rating,
        }
    }

    /// The tile of a game stored in the database, on the platform at
    /// `index`, with its box art in the file `boxart`.
    pub fn new_game(info: &GameInfo, index: usize, boxart: std::path::PathBuf) -> (t: Tile)
        requires
            spec_rating_from_code(info.rating) is Some,
        ensures
            spec_is_game_tile(t, *info, index, boxart),
            t.file == info.filename,
            t.name == info.name,
            t.description == info.overview,
            t.platform_index == index,
            t.boxart == PathType::File(boxart),
            t.released == info.released,
            t.players == info.players as u8,
            t.rating@ == spec_rating_name(spec_rating_from_code(info.rating)->0),
    {
        let rating = Rating::from_i64(info.rating).unwrap();
        Tile {
            file: info.filename.clone(),
            name: info.name.clone(),
            description: info.overview.clone(),
            platform_index: index,
            boxart: PathType::File(boxart),
            released: info.released.clone(),
            players: info.players as u8,
            rating: rating.to_display(),
        }
    }
}

/// The path of the folder of roms named `name`: `name` joined to the
/// launcher's `./Roms` folder.
pub uninterp spec fn spec_rom_path(name: Seq<char>) -> std::path::PathBuf;

/// `Path::join` of `name` onto `./Roms`. Its result is named by
/// [`spec_rom_path`]; nothing more is stated of the path.
#[verifier::external_body]
fn rom_path(name: &str) -> (p: std::path::PathBuf)
    ensures
        p == spec_rom_path(name@),
{
    std::path::Path::new("./Roms").join(name)
}

/// A group of tiles shown as one entry of the platform list.
pub struct TileGroup {
    pub id: Option<i64>,
    pub name: String,
    pub apps: Vec<Tile>,
    pub kind: GroupType,
    pub plugin_index: usize,
}

impl TileGroup {
    /// The group of an emulator platform stored with `id`.
    pub fn new(id: i64, name: String) -> (g: TileGroup)
        ensures
            g.id == Some(id),
            g.name == name,
            g.apps@.len() == 0,
            g.kind == GroupType::Emulator,
            g.plugin_index == 0,
    {
        TileGroup { id: Some(id), name, apps: Vec::new(), kind: GroupType::Emulator, plugin_index: 0 }
    }

    /// The group of recently played games.
    pub fn recents(name: String) -> (g: TileGroup)
        ensures
            g.id is None,
            g.name == name,
            g.apps@.len() == 0,
            g.kind == GroupType::Recents,
            g.plugin_index == 0,
    {
        TileGroup { id: None, name, apps: Vec::new(), kind: GroupType::Recents, plugin_index: 0 }
    }

    /// The group of the items of the plugin at `plugin_index`.
    pub fn plugin(plugin_index: usize, name: String) -> (g: TileGroup)
        ensures
            g.id is None,
            g.name == name,
            g.apps@.len() == 0,
            g.kind == GroupType::Plugin,
            g.plugin_index == plugin_index,
    {
        TileGroup { id: None, name, apps: Vec::new(), kind: GroupType::Plugin, plugin_index }
    }

    /// The folder that holds the group's roms.
    pub fn get_rom_path(&self) -> (p: std::path::PathBuf)
        ensures
            p == spec_rom_path(self.name@),
    {
        rom_path(self.name.as_str())
    }

    /// The index of the plugin whose items the group lists, if it is a
    /// plugin group.
    pub fn get_plugin(&self) -> (p: Option<usize>)
        ensures
            p == (if self.kind == GroupType::Plugin {
                Some(self.plugin_index)
            } else {
                None
            }),
    {
        if let GroupType::Plugin = self.kind {
            return Some(self.plugin_index);
        }
        None
    }
}

/// A game or application of a platform.
pub struct Executable {
    pub file: String,
    pub name: String,
    pub description: String,
    pub rating: Rating,
    pub players: u8,
    pub platform_index: usize,
    pub boxart: PathType,
}

impl Executable {
    /// The entry of an item listed by a plugin. The item's thumbnail must
    /// already be resolved to where it can be loaded from.
    pub fn plugin_item(platform_index: usize, item: YaffePluginItem) -> (e: Executable)
        ensures
            e.file == item.path,
            e.name == item.name,
            e.description == item.description,
            e.platform_index == platform_index,
            e.boxart == item.thumbnail,
            e.players == 1,
            e.rating == (if item.restricted {
                Rating::Mature
            } else {
                Rating::Everyone
            }),
    {
        Executable {
            file: item.path,
            name: item.name,
            description: item.description,
            platform_index,
            boxart: item.thumbnail,
            players: 1,
            rating: if !item.restricted {
                Rating::Everyone
            } else {
                Rating::Mature
            },
        }
    }

    /// The entry of a game stored in the database.
    pub fn new_game(
        file: String,
        name: String,
        description: String,
        platform_index: usize,
        players: u8,
        rating: Rating,
        boxart: std::path::PathBuf,
    ) -> (e: Executable)
        ensures
            e.file == file,
            e.name == name,
            e.description == description,
            e.platform_index == platform_index,
            e.players == players,
            e.rating == rating,
            e.boxart == PathType::File(boxart),
    {
        Executable { file, name, description, platform_index, boxart: PathType::File(boxart), players, rating }
    }
}

/// An entry of the platform list.
pub struct Platform {
    pub id: Option<i64>,
    pub name: String,
    pub apps: Vec<Executable>,
    pub kind: PlatformType,
    pub plugin_index: usize,
}

impl Platform {
    /// The entry of an emulator platform stored with `id`.
    pub fn new(id: i64, name: String) -> (p: Platform)
        ensures
            p.id == Some(id),
            p.name == name,
            p.apps@.len() == 0,
            p.kind == PlatformType::Emulator,
            p.plugin_index == 0,
    {
        Platform { id: Some(id), name, apps: Vec::new(), kind: PlatformType::Emulator, plugin_index: 0 }
    }

    /// The entry of recently played games.
    pub fn recents(name: String) -> (p: Platform)
        ensures
            p.id is None,
            p.name == name,
            p.apps@.len() == 0,
            p.kind == PlatformType::Recents,
            p.plugin_index == 0,
    {
        Platform { id: None, name, apps: Vec::new(), kind: PlatformType::Recents, plugin_index: 0 }
    }

    /// The entry of the plugin at `plugin_index`.
    pub fn plugin(plugin_index: usize, name: String) -> (p: Platform)
        ensures
            p.id is None,
            p.name == name,
            p.apps@.len() == 0,
            p.kind == PlatformType::Plugin,
            p.plugin_index == plugin_index,
    {
        Platform { id: None, name, apps: Vec::new(), kind: PlatformType::Plugin, plugin_index }
    }

    /// The folder that holds the platform's roms.
    pub fn get_rom_path(&self) -> (p: std::path::PathBuf)
        ensures
            p == spec_rom_path(self.name@),
    {
        rom_path(self.name.as_str())
    }

    /// The index of the plugin whose items the platform lists, if it is a
    /// plugin platform.
    pub fn get_plugin(&self) -> (p: Option<usize>)
        ensures
            p == (if self.kind == PlatformType::Plugin {
                Some(self.plugin_index)
            } else {
                None
            }),
    {
        if let PlatformType::Plugin = self.kind {
            return Some(self.plugin_index);
        }
        None
    }
}

/// The navigation state shared by the widgets: which platform and which
/// game are selected, the active search filter and restricted mode.
pub struct YaffeState {
    pub selected_platform: usize,
    pub selected_app: usize,
    pub platforms: Vec<TileGroup>,
    pub focused_widget: WidgetId,
    pub search_info: SearchInfo,
    pub restricted_mode: RestrictedMode,
    pub refresh_list: bool,
    pub running: bool,
}

impl YaffeState {
    /// The state at start up: nothing loaded yet, the platform list focused
    /// and a refresh of the lists pending.
    pub fn new() -> (s: YaffeState)
        ensures
            s.selected_platform == 0,
            s.selected_app == 0,
            s.platforms@.len() == 0,
            s.focused_widget == WidgetId::PlatformList,
            s.search_info.wf(),
            s.search_info.option == 0,
            s.search_info.index == -1,
            s.restricted_mode is Off,
            s.refresh_list,
            s.running,
    {
        YaffeState {
            selected_platform: 0,
            selected_app: 0,
            platforms: Vec::new(),
            focused_widget: WidgetId::PlatformList,
            search_info: SearchInfo::new(),
            restricted_mode: RestrictedMode::Off,
            refresh_list: true,
            running: true,
        }
    }

    /// The selected platform.
    pub fn get_platform(&self) -> (p: &TileGroup)
        requires
            self.selected_platform < self.platforms@.len(),
        ensures
            *p == self.platforms@[self.selected_platform as int],
    {
        &self.platforms[self.selected_platform]
    }

    /// The selected game, if the selection is within the selected platform.
    pub fn get_executable(&self) -> (e: Option<&Tile>)
        requires
            self.selected_platform < self.platforms@.len(),
        ensures
            e == self.spec_executable(),
    {
        let p = self.get_platform();
        if p.apps.len() > self.selected_app {
            return Some(&p.apps[self.selected_app]);
        }
        None
    }

    /// The selected game, if the selection is within the selected platform.
    pub open spec fn spec_executable(&self) -> Option<&Tile> {
        let apps = self.platforms@[self.selected_platform as int].apps@;
        if self.selected_app < apps.len() {
            Some(&apps[self.selected_app as int])
        } else {
            None
        }
    }
}

} // verus!
