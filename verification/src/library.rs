//! The platform list as it is rebuilt from the database: the recent
//! games first, then each emulator platform with its games in order of
//! name, then the plugins.
use vstd::prelude::*;
use crate::data::PlatformInfo;
use crate::state::{GroupType, Tile, TileGroup};
use crate::text::chars_of;

verus! {

/// Whether `a` comes before `b` in the order of names: compared character
/// by character by code point, a proper prefix first.
pub open spec fn spec_name_less(a: Seq<char>, b: Seq<char>) -> bool
    decreases a.len(),
{
    if b.len() == 0 {
        false
    } else if a.len() == 0 {
        true
    } else if a[0] != b[0] {
        (a[0] as u32) < (b[0] as u32)
    } else {
        spec_name_less(a.drop_first(), b.drop_first())
    }
}

/// Whether `a` comes before `b` in the order of names.
pub fn name_less(a: &str, b: &str) -> (r: bool)
    ensures
        r == spec_name_less(a@, b@),
{
    let x = chars_of(a);
    let y = chars_of(b);
    let mut i: usize = 0;
    assert(x@.skip(0) =~= x@ && y@.skip(0) =~= y@);
    while i < x.len() && i < y.len() && x[i] == y[i]
        invariant
            x@ == a@,
            y@ == b@,
            i <= x@.len(),
            i <= y@.len(),
            spec_name_less(x@.skip(i as int), y@.skip(i as int)) == spec_name_less(a@, b@),
        decreases x@.len() - i,
    {
        proof {
            assert(x@.skip(i as int).drop_first() =~= x@.skip(i + 1));
            assert(y@.skip(i as int).drop_first() =~= y@.skip(i + 1));
        }
        i = i + 1;
    }
    if i == y.len() {
        false
    } else if i == x.len() {
        true
    } else {
        (x[i] as u32) < (y[i] as u32)
    }
}

/// Something with a name to be ordered by.
pub trait Named {
    spec fn name_view(&self) -> Seq<char>;

    fn name_str(&self) -> (s: &str)
        ensures
            s@ == self.name_view(),
    ;
}

impl Named for Tile {
    open spec fn name_view(&self) -> Seq<char> {
        self.name@
    }

    fn name_str(&self) -> (s: &str) {
        self.name.as_str()
    }
}

impl Named for (String, String) {
    open spec fn name_view(&self) -> Seq<char> {
        self.0@
    }

    fn name_str(&self) -> (s: &str) {
        self.0.as_str()
    }
}

/// The position at which an item named `name` goes into `sorted`: after
/// every item whose name does not come after it.
pub open spec fn spec_insert_position<T: Named>(sorted: Seq<T>, name: Seq<char>) -> int
    decreases sorted.len(),
{
    if sorted.len() == 0 {
        0
    } else if spec_name_less(name, sorted.last().name_view()) {
        spec_insert_position(sorted.drop_last(), name)
    } else {
        sorted.len() as int
    }
}

/// `tiles` in order of name, items with equal names in the order they
/// had: each item is inserted after the ones before it whose names do not
/// come after its own.
pub open spec fn spec_sort_by_name<T: Named>(tiles: Seq<T>) -> Seq<T>
    decreases tiles.len(),
{
    if tiles.len() == 0 {
        tiles
    } else {
        let sorted = spec_sort_by_name(tiles.drop_last());
        sorted.insert(spec_insert_position(sorted, tiles.last().name_view()), tiles.last())
    }
}

proof fn lemma_insert_position_bounds<T: Named>(sorted: Seq<T>, name: Seq<char>)
    ensures
        0 <= spec_insert_position(sorted, name) <= sorted.len(),
    decreases sorted.len(),
{
    if sorted.len() > 0 {
        lemma_insert_position_bounds(sorted.drop_last(), name);
    }
}

pub proof fn lemma_sort_len<T: Named>(tiles: Seq<T>)
    ensures
        spec_sort_by_name(tiles).len() == tiles.len(),
    decreases tiles.len(),
{
    if tiles.len() > 0 {
        lemma_sort_len(tiles.drop_last());
        lemma_insert_position_bounds(spec_sort_by_name(tiles.drop_last()), tiles.last().name_view());
    }
}

/// The position at which an item named `name` goes into `sorted`.
fn insert_position<T: Named>(sorted: &Vec<T>, name: &str) -> (p: usize)
    ensures
        p == spec_insert_position(sorted@, name@),
{
    let mut p = sorted.len();
    assert(sorted@.take(p as int) =~= sorted@);
    while p > 0 && name_less(name, sorted[p - 1].name_str())
        invariant
            p <= sorted@.len(),
            spec_insert_position(sorted@.take(p as int), name@) == spec_insert_position(
                sorted@,
                name@,
            ),
        decreases p,
    {
        assert(sorted@.take(p as int).drop_last() =~= sorted@.take(p - 1));
        assert(sorted@.take(p as int).last() == sorted@[p - 1]);
        p = p - 1;
    }
    p
}

/// Orders `tiles` by name, keeping items with equal names in the order
/// they had.
pub fn sort_by_name<T: Named>(tiles: Vec<T>) -> (r: Vec<T>)
    ensures
        r@ == spec_sort_by_name(tiles@),
{
    let ghost all = tiles@;
    let mut rest = tiles;
    let total = rest.len();
    let mut sorted: Vec<T> = Vec::new();
    let mut done: usize = 0;
    assert(all.take(0) =~= Seq::<T>::empty());
    while rest.len() > 0
        invariant
            all.len() == total,
            done + rest@.len() == total,
            rest@ == all.skip(done as int),
            sorted@ == spec_sort_by_name(all.take(done as int)),
        decreases rest@.len(),
    {
        let t = rest.remove(0);
        assert(all.take(done + 1).drop_last() =~= all.take(done as int));
        assert(all.take(done + 1).last() == t);
        let p = insert_position(&sorted, t.name_str());
        proof {
            lemma_insert_position_bounds(sorted@, t.name_view());
        }
        sorted.insert(p, t);
        assert(rest@ =~= all.skip(done + 1));
        done = done + 1;
    }
    assert(all.take(total as int) =~= all);
    sorted
}

/// Whether the names of `tiles` are in order.
pub open spec fn spec_sorted<T: Named>(tiles: Seq<T>) -> bool {
    forall|i: int, j: int|
        0 <= i < j < tiles.len() ==> !spec_name_less(tiles[j].name_view(), tiles[i].name_view())
}

proof fn lemma_name_less_total(a: Seq<char>, b: Seq<char>)
    ensures
        a != b ==> spec_name_less(a, b) || spec_name_less(b, a),
        !(spec_name_less(a, b) && spec_name_less(b, a)),
    decreases a.len(),
{
    if a.len() > 0 && b.len() > 0 {
        vstd::utf8::char_u32_cast(a[0], a[0] as u32);
        vstd::utf8::char_u32_cast(b[0], b[0] as u32);
    }
    if a.len() > 0 && b.len() > 0 && a[0] == b[0] {
        lemma_name_less_total(a.drop_first(), b.drop_first());
        if a != b {
            assert(a =~= seq![a[0]] + a.drop_first());
            assert(b =~= seq![b[0]] + b.drop_first());
        }
    } else if a.len() == 0 && b.len() == 0 {
        assert(a =~= b);
    }
}

proof fn lemma_name_less_transitive(a: Seq<char>, b: Seq<char>, c: Seq<char>)
    requires
        spec_name_less(a, b),
        spec_name_less(b, c),
    ensures
        spec_name_less(a, c),
    decreases a.len(),
{
    if a.len() > 0 && b.len() > 0 && c.len() > 0 && a[0] == b[0] && b[0] == c[0] {
        lemma_name_less_transitive(a.drop_first(), b.drop_first(), c.drop_first());
    }
}

/// Not coming after is transitive: if `a` does not come after `b` and `b`
/// not after `c`, then `a` does not come after `c`.
proof fn lemma_not_after_transitive(a: Seq<char>, b: Seq<char>, c: Seq<char>)
    requires
        !spec_name_less(b, a),
        !spec_name_less(c, b),
    ensures
        !spec_name_less(c, a),
{
    lemma_name_less_total(a, b);
    lemma_name_less_total(b, c);
    if spec_name_less(c, a) {
        if a == b {
            assert(spec_name_less(c, b));
        } else if b == c {
            assert(spec_name_less(b, a));
        } else {
            assert(spec_name_less(a, b));
            assert(spec_name_less(b, c));
            lemma_name_less_transitive(a, b, c);
            lemma_name_less_total(a, c);
        }
    }
}

proof fn lemma_insert_keeps_sorted<T: Named>(sorted: Seq<T>, t: T)
    requires
        spec_sorted(sorted),
    ensures
        spec_sorted(sorted.insert(spec_insert_position(sorted, t.name_view()), t)),
    decreases sorted.len(),
{
    let p = spec_insert_position(sorted, t.name_view());
    lemma_insert_position_bounds(sorted, t.name_view());
    if sorted.len() == 0 {
        return;
    }
    if spec_name_less(t.name_view(), sorted.last().name_view()) {
        let front = sorted.drop_last();
        assert forall|i: int, j: int| 0 <= i < j < front.len() implies !spec_name_less(
            front[j].name_view(),
            front[i].name_view(),
        ) by {
            assert(front[i] == sorted[i] && front[j] == sorted[j]);
        }
        lemma_insert_keeps_sorted(front, t);
        lemma_insert_position_bounds(front, t.name_view());
        let inserted = front.insert(p, t);
        let result = sorted.insert(p, t);
        assert(result =~= inserted.push(sorted.last()));
        lemma_name_less_total(t.name_view(), sorted.last().name_view());
        assert forall|i: int, j: int| 0 <= i < j < result.len() implies !spec_name_less(
            result[j].name_view(),
            result[i].name_view(),
        ) by {
            if j == result.len() - 1 {
                if i == p {
                    assert(result[i] == t);
                } else if i < p {
                    assert(result[i] == sorted[i]);
                    assert(!spec_name_less(sorted[sorted.len() - 1].name_view(), sorted[i].name_view()));
                } else {
                    assert(result[i] == sorted[i - 1]);
                    assert(!spec_name_less(sorted[sorted.len() - 1].name_view(), sorted[i - 1].name_view()));
                }
            } else {
                assert(result[i] == inserted[i] && result[j] == inserted[j]);
            }
        }
    } else {
        let result = sorted.insert(p, t);
        assert(result =~= sorted.push(t));
        assert forall|i: int, j: int| 0 <= i < j < result.len() implies !spec_name_less(
            result[j].name_view(),
            result[i].name_view(),
        ) by {
            if j == result.len() - 1 {
                if i < sorted.len() - 1 {
                    assert(!spec_name_less(sorted.last().name_view(), sorted[i].name_view()));
                    lemma_not_after_transitive(sorted[i].name_view(), sorted.last().name_view(), t.name_view());
                }
            } else {
                assert(result[i] == sorted[i] && result[j] == sorted[j]);
            }
        }
    }
}

/// Sorting by name puts the names in order.
pub proof fn lemma_sort_is_sorted<T: Named>(tiles: Seq<T>)
    ensures
        spec_sorted(spec_sort_by_name(tiles)),
    decreases tiles.len(),
{
    if tiles.len() > 0 {
        lemma_sort_is_sorted(tiles.drop_last());
        lemma_insert_keeps_sorted(spec_sort_by_name(tiles.drop_last()), tiles.last());
    }
}

/// Sorting by name keeps every item, as many times as it occurs.
pub proof fn lemma_sort_is_permutation<T: Named>(tiles: Seq<T>)
    ensures
        spec_sort_by_name(tiles).to_multiset() == tiles.to_multiset(),
    decreases tiles.len(),
{
    broadcast use vstd::seq_lib::group_to_multiset_ensures;

    if tiles.len() > 0 {
        let front = tiles.drop_last();
        lemma_sort_is_permutation(front);
        let sorted = spec_sort_by_name(front);
        let p = spec_insert_position(sorted, tiles.last().name_view());
        lemma_insert_position_bounds(sorted, tiles.last().name_view());
        assert(sorted.insert(p, tiles.last()) =~= sorted.take(p).push(tiles.last()) + sorted.skip(p));
        assert(sorted =~= sorted.take(p) + sorted.skip(p));
        vstd::seq_lib::lemma_multiset_commutative(sorted.take(p).push(tiles.last()), sorted.skip(p));
        vstd::seq_lib::lemma_multiset_commutative(sorted.take(p), sorted.skip(p));
        assert(tiles =~= front.push(tiles.last()));
    } else {
        assert(spec_sort_by_name(tiles) =~= tiles);
    }
}

/// The platform list rebuilt from the database: the recent games under
/// `recent_name`, then each stored platform in the order given, then a
/// group for each plugin, named as the plugin is.
pub fn assemble_platforms(recent_name: String, platforms: Vec<PlatformInfo>, plugin_names: Vec<String>) -> (r: Vec<TileGroup>)
    ensures
        r@.len() == 1 + platforms@.len() + plugin_names@.len(),
        r@[0].kind == GroupType::Recents && r@[0].name == recent_name && r@[0].apps@.len() == 0,
        forall|i: int|
            0 <= i < platforms@.len() ==> {
                let g = #[trigger] r@[1 + i];
                &&& g.kind == GroupType::Emulator
                &&& g.id == Some(platforms@[i].id)
                &&& g.name == platforms@[i].platform
                &&& g.apps@.len() == 0
            },
        forall|k: int|
            0 <= k < plugin_names@.len() ==> {
                let g = #[trigger] r@[1 + platforms@.len() + k];
                &&& g.kind == GroupType::Plugin
                &&& g.plugin_index == k
                &&& g.name == plugin_names@[k]
                &&& g.apps@.len() == 0
            },
{
    let ghost infos = platforms@;
    let ghost names = plugin_names@;
    let mut result: Vec<TileGroup> = Vec::new();
    result.push(TileGroup::recents(recent_name));
    let mut platforms = platforms;
    let mut i: usize = 0;
    let n = platforms.len();
    while platforms.len() > 0
        invariant
            n == infos.len(),
            i + platforms@.len() == n,
            platforms@ == infos.skip(i as int),
            result@.len() == 1 + i,
            result@[0].kind == GroupType::Recents && result@[0].name == recent_name
                && result@[0].apps@.len() == 0,
            forall|j: int|
                0 <= j < i ==> {
                    let g = #[trigger] result@[1 + j];
                    &&& g.kind == GroupType::Emulator
                    &&& g.id == Some(infos[j].id)
                    &&& g.name == infos[j].platform
                    &&& g.apps@.len() == 0
                },
        decreases platforms@.len(),
    {
        let p = platforms.remove(0);
        assert(infos[i as int] == p);
        result.push(TileGroup::new(p.id, p.platform));
        assert(platforms@ =~= infos.skip(i + 1));
        i = i + 1;
    }
    let mut names_left = plugin_names;
    let mut k: usize = 0;
    let m = names_left.len();
    while names_left.len() > 0
        invariant
            m == names.len(),
            k + names_left@.len() == m,
            names_left@ == names.skip(k as int),
            n == infos.len(),
            result@.len() == 1 + n + k,
            result@[0].kind == GroupType::Recents && result@[0].name == recent_name
                && result@[0].apps@.len() == 0,
            forall|j: int|
                0 <= j < n ==> {
                    let g = #[trigger] result@[1 + j];
                    &&& g.kind == GroupType::Emulator
                    &&& g.id == Some(infos[j].id)
                    &&& g.name == infos[j].platform
                    &&& g.apps@.len() == 0
                },
            forall|j: int|
                0 <= j < k ==> {
                    let g = #[trigger] result@[1 + n + j];
                    &&& g.kind == GroupType::Plugin
                    &&& g.plugin_index == j
                    &&& g.name == names[j]
                    &&& g.apps@.len() == 0
                },
        decreases names_left@.len(),
    {
        let name = names_left.remove(0);
        assert(names[k as int] == name);
        result.push(TileGroup::plugin(k, name));
        assert(names_left@ =~= names.skip(k + 1));
        k = k + 1;
    }
    result
}

/// Sets the games of an emulator platform to `games`, in order of name.
pub fn refresh_executable(group: &mut TileGroup, games: Vec<Tile>)
    ensures
        final(group).apps@ == spec_sort_by_name(games@),
        final(group).id == old(group).id,
        final(group).name == old(group).name,
        final(group).kind == old(group).kind,
        final(group).plugin_index == old(group).plugin_index,
{
    group.apps = sort_by_name(games);
}

} // verus!
