//! Records of the launcher's database: platforms and games.
use vstd::prelude::*;
use crate::state::{
    Rating,
    Tile,
    TileGroup,
    spec_is_game_tile,
    spec_rating_code,
    spec_rating_from_code,
    spec_rating_from_name,
};

verus! {

/// A game stored in the database.
pub struct GameInfo {
    pub id: i64,
    pub name: String,
    pub overview: String,
    pub players: i64,
    pub rating: i64,
    pub released: String,
    pub filename: String,
    pub platform: i64,
    pub lastrun: i64,
}

impl GameInfo {
    /// A game that has not been run yet. `rating` is the text the rating is
    /// shown as; it is stored as the rating's number.
    pub fn new(
        id: i64,
        name: String,
        overview: String,
        players: i64,
        rating: String,
        released: String,
        filename: String,
        platform: i64,
    ) -> (g: GameInfo)
        requires
            spec_rating_from_name(rating@) is Some,
        ensures
            g.id == id,
            g.name == name,
            g.overview == overview,
            g.players == players,
            g.rating == spec_rating_code(spec_rating_from_name(rating@)->0),
            g.released == released,
            g.filename == filename,
            g.platform == platform,
            g.lastrun == 0,
    {
        let r = Rating::from_name(rating.as_str()).unwrap();
        GameInfo {
            id,
            name,
            overview,
            players,
            filename,
            rating: r.to_i64(),
            released,
            platform,
            lastrun: 0,
        }
    }

    /// The id of the game's platform.
    pub fn platform(&self) -> (p: i64)
        ensures
            p == self.platform,
    {
        self.platform
    }

    /// The tiles of the recently played games, from the database's rows
    /// (most recent first, each game with its box art file): each game is
    /// shown on the first platform of `map` that has its platform's id, and
    /// games of platforms missing from `map` are left out.
    pub fn get_recent(rows: Vec<(GameInfo, std::path::PathBuf)>, map: &[TileGroup]) -> (result: Vec<Tile>)
        requires
            forall|i: int| 0 <= i < rows@.len() ==> (spec_rating_from_code(#[trigger] rows@[i].0.rating) is Some),
        ensures
            result@.len() == spec_recent(rows@, map@).len(),
            forall|i: int|
                0 <= i < result@.len() ==> spec_is_game_tile(
                    #[trigger] result@[i],
                    spec_recent(rows@, map@)[i].0,
                    spec_recent(rows@, map@)[i].2 as usize,
                    spec_recent(rows@, map@)[i].1,
                ),
    {
        let ghost all = rows@;
        let mut rows = rows;
        let total = rows.len();
        let mut done: usize = 0;
        let mut result: Vec<Tile> = Vec::new();
        while rows.len() > 0
            invariant
                all.len() == total,
                done + rows@.len() == total,
                rows@ == all.skip(done as int),
                forall|i: int| 0 <= i < all.len() ==> (spec_rating_from_code(#[trigger] all[i].0.rating) is Some),
                result@.len() == spec_recent(all.take(done as int), map@).len(),
                forall|i: int|
                    0 <= i < result@.len() ==> spec_is_game_tile(
                        #[trigger] result@[i],
                        spec_recent(all.take(done as int), map@)[i].0,
                        spec_recent(all.take(done as int), map@)[i].2 as usize,
                        spec_recent(all.take(done as int), map@)[i].1,
                    ),
            decreases rows@.len(),
        {
            let (info, boxart) = rows.remove(0);
            assert(all[done as int] == (info, boxart));
            assert(all.take(done + 1).drop_last() =~= all.take(done as int));
            let index = platform_position(map, info.platform);
            if let Some(index) = index {
                result.push(Tile::new_game(&info, index, boxart));
            }
            assert(rows@ =~= all.skip(done + 1));
            done = done + 1;
        }
        assert(all.take(total as int) =~= all);
        result
    }
}

/// The position of the first group of `map` stored with the platform id
/// `id`.
pub open spec fn spec_platform_position(map: Seq<TileGroup>, id: i64) -> Option<int>
    decreases map.len(),
{
    if map.len() == 0 {
        None
    } else {
        match spec_platform_position(map.drop_last(), id) {
            Some(p) => Some(p),
            None => if map.last().id == Some(id) {
                Some(map.len() - 1)
            } else {
                None
            },
        }
    }
}

/// The recently played games of `rows` whose platform `map` has, each with
/// its box art and the position of its platform.
pub open spec fn spec_recent(rows: Seq<(GameInfo, std::path::PathBuf)>, map: Seq<TileGroup>) -> Seq<
    (GameInfo, std::path::PathBuf, int),
>
    decreases rows.len(),
{
    if rows.len() == 0 {
        Seq::empty()
    } else {
        let before = spec_recent(rows.drop_last(), map);
        match spec_platform_position(map, rows.last().0.platform) {
            Some(p) => before.push((rows.last().0, rows.last().1, p)),
            None => before,
        }
    }
}

/// The position of the first group of `map` stored with the platform id
/// `id`, if any.
fn platform_position(map: &[TileGroup], id: i64) -> (p: Option<usize>)
    ensures
        match spec_platform_position(map@, id) {
            Some(q) => p == Some(q as usize) && 0 <= q < map@.len(),
            None => p is None,
        },
{
    let mut i: usize = 0;
    assert(map@.take(0) =~= Seq::<TileGroup>::empty());
    while i < map.len()
        invariant
            i <= map@.len(),
            spec_platform_position(map@.take(i as int), id) is None,
        decreases map@.len() - i,
    {
        assert(map@.take(i + 1).drop_last() =~= map@.take(i as int));
        if map[i].id == Some(id) {
            proof {
                lemma_position_prefix(map@, id, i + 1);
            }
            return Some(i);
        }
        i = i + 1;
    }
    assert(map@.take(i as int) =~= map@);
    None
}

/// Looking further into `map` does not change a position already found,
/// nor find one where the prefix has none unless it lies beyond it.
proof fn lemma_position_prefix(map: Seq<TileGroup>, id: i64, k: int)
    requires
        0 <= k <= map.len(),
        spec_platform_position(map.take(k), id) is Some,
    ensures
        spec_platform_position(map, id) == spec_platform_position(map.take(k), id),
        spec_platform_position(map, id) matches Some(q) && 0 <= q < k,
    decreases map.len() - k,
{
    lemma_position_bounds(map.take(k), id);
    if k < map.len() {
        assert(map.take(k + 1).drop_last() =~= map.take(k));
        lemma_position_prefix(map, id, k + 1);
    } else {
        assert(map.take(k) =~= map);
    }
}

proof fn lemma_position_bounds(map: Seq<TileGroup>, id: i64)
    ensures
        spec_platform_position(map, id) matches Some(q) ==> 0 <= q < map.len(),
    decreases map.len(),
{
    if map.len() > 0 {
        lemma_position_bounds(map.drop_last(), id);
    }
}

/// An emulator platform stored in the database: the emulator's
/// executable and the arguments it is started with.
pub struct PlatformInfo {
    pub id: i64,
    pub platform: String,
    pub path: String,
    pub args: String,
}

impl PlatformInfo {
    pub fn new(id: i64, platform: String, path: String, args: String) -> (p: PlatformInfo)
        ensures
            p.id == id,
            p.platform == platform,
            p.path == path,
            p.args == args,
    {
        PlatformInfo { id, platform, path, args }
    }
}

} // verus!
