//! Where box art is stored, and which loaded images leave the cache.
use vstd::prelude::*;
use crate::files::{sanitize_file, spec_sanitize};
use crate::text::{chars_of, string_from_chars};

verus! {

/// How long an image may go unrequested before it leaves the cache, in
/// milliseconds: more than a minute, counted in whole seconds.
pub const CACHE_IDLE_MS: u64 = 61_000;

/// What the cache knows of an image slot: whether its image is loaded,
/// how many bytes it holds, and when it was last requested, in
/// milliseconds.
#[derive(Copy, Clone)]
pub struct SlotInfo {
    pub loaded: bool,
    pub data_length: u64,
    pub last_request: u64,
}

/// The bytes held by the loaded slots of `slots`.
pub open spec fn spec_total_memory(slots: Seq<SlotInfo>) -> int
    decreases slots.len(),
{
    if slots.len() == 0 {
        0
    } else {
        spec_total_memory(slots.drop_last()) + if slots.last().loaded {
            slots.last().data_length as int
        } else {
            0
        }
    }
}

/// The state of a scan of the slots: the oldest request seen so far, the
/// slot that made it, and the slots found idle for too long.
pub struct ScanState {
    pub oldest: int,
    pub oldest_index: Option<int>,
    pub idle: Seq<int>,
}

/// The scan after the first `k` slots of `slots`, starting from `now`: a
/// loaded slot requested earlier than every slot before it becomes the
/// oldest; any other loaded slot that has been idle too long is evicted.
pub open spec fn spec_scan(slots: Seq<SlotInfo>, now: u64, k: int) -> ScanState
    decreases k,
{
    if k <= 0 {
        ScanState { oldest: now as int, oldest_index: None, idle: Seq::empty() }
    } else {
        let before = spec_scan(slots, now, k - 1);
        let s = slots[k - 1];
        if !s.loaded {
            before
        } else if (s.last_request as int) < before.oldest {
            ScanState { oldest: s.last_request as int, oldest_index: Some(k - 1), ..before }
        } else if now as int - s.last_request as int >= CACHE_IDLE_MS {
            ScanState { idle: before.idle.push(k - 1), ..before }
        } else {
            before
        }
    }
}

/// The slots to empty: those idle for too long and, when the loaded slots
/// hold more than `limit` bytes, the oldest one.
pub open spec fn spec_evictions(slots: Seq<SlotInfo>, now: u64, limit: u64) -> Seq<int> {
    let scan = spec_scan(slots, now, slots.len() as int);
    if spec_total_memory(slots) > limit {
        match scan.oldest_index {
            Some(i) => scan.idle.push(i),
            None => scan.idle,
        }
    } else {
        scan.idle
    }
}

/// Decides which slots of the cache to empty at `now`: every loaded slot
/// idle for more than a minute, except one found older than all before
/// it, and the least recently requested slot if the loaded slots hold more
/// than `limit` bytes.
pub fn cache_evictions(slots: &Vec<SlotInfo>, now: u64, limit: u64) -> (r: Vec<usize>)
    requires
        spec_total_memory(slots@) <= u64::MAX,
    ensures
        r@.len() == spec_evictions(slots@, now, limit).len(),
        forall|i: int| 0 <= i < r@.len() ==> r@[i] as int == #[trigger] spec_evictions(slots@, now, limit)[i],
{
    let mut total: u64 = 0;
    let mut oldest: u64 = now;
    let mut oldest_index: Option<usize> = None;
    let mut idle: Vec<usize> = Vec::new();
    let mut i: usize = 0;
    proof {
        lemma_total_prefix(slots@, 0);
        assert(slots@.take(0) =~= Seq::<SlotInfo>::empty());
    }
    while i < slots.len()
        invariant
            i <= slots@.len(),
            spec_total_memory(slots@) <= u64::MAX,
            total == spec_total_memory(slots@.take(i as int)),
            spec_total_memory(slots@.take(i as int)) <= spec_total_memory(slots@),
            oldest as int == spec_scan(slots@, now, i as int).oldest,
            oldest_index matches Some(o) ==> spec_scan(slots@, now, i as int).oldest_index == Some(
                o as int,
            ),
            oldest_index is None ==> spec_scan(slots@, now, i as int).oldest_index is None,
            idle@.len() == spec_scan(slots@, now, i as int).idle.len(),
            forall|j: int|
                0 <= j < idle@.len() ==> idle@[j] as int == #[trigger] spec_scan(
                    slots@,
                    now,
                    i as int,
                ).idle[j],
        decreases slots@.len() - i,
    {
        let s = slots[i];
        proof {
            assert(slots@.take(i + 1).drop_last() =~= slots@.take(i as int));
            lemma_total_prefix(slots@, i + 1);
        }
        if s.loaded {
            total = total + s.data_length;
            if s.last_request < oldest {
                oldest = s.last_request;
                oldest_index = Some(i);
            } else if now >= s.last_request && now - s.last_request >= CACHE_IDLE_MS {
                idle.push(i);
            }
        }
        i = i + 1;
    }
    assert(slots@.take(slots@.len() as int) =~= slots@);
    if total > limit {
        if let Some(o) = oldest_index {
            idle.push(o);
        }
    }
    idle
}

proof fn lemma_total_prefix(slots: Seq<SlotInfo>, k: int)
    requires
        0 <= k <= slots.len(),
    ensures
        spec_total_memory(slots.take(k)) <= spec_total_memory(slots),
    decreases slots.len() - k,
{
    if k < slots.len() {
        lemma_total_prefix(slots, k + 1);
        assert(slots.take(k + 1).drop_last() =~= slots.take(k));
    } else {
        assert(slots.take(k) =~= slots);
    }
}

/// The path of the box art file named `file` of the platform folder
/// named `platform` under `./Assets`.
pub uninterp spec fn spec_asset_path(platform: Seq<char>, file: Seq<char>) -> std::path::PathBuf;

/// `Path::join` of `platform` onto `./Assets`, then of `file`. Its result
/// is named by [`spec_asset_path`]; nothing more is stated of the path.
#[verifier::external_body]
fn asset_path(platform: &str, file: &str) -> (p: std::path::PathBuf)
    ensures
        p == spec_asset_path(platform@, file@),
{
    std::path::Path::new("./Assets").join(platform).join(file)
}

/// The name of the box art file of the game named `name`: the name with
/// the characters a file name may not hold removed, and `.jpg` added.
pub open spec fn spec_asset_file(name: Seq<char>) -> Seq<char> {
    spec_sanitize(name) + ".jpg"@
}

/// Where the box art of the game `name` of the platform `platform` is
/// stored: in the platform's folder under `./Assets`, both names cleaned of
/// the characters a file name may not hold.
pub fn get_asset_path(platform: &str, name: &str) -> (p: std::path::PathBuf)
    ensures
        p == spec_asset_path(spec_sanitize(platform@), spec_asset_file(name@)),
{
    let folder = sanitize_file(platform);
    let base = sanitize_file(name);
    let mut file = chars_of(base.as_str());
    let ext = chars_of(".jpg");
    let ghost start = file@;
    let mut i: usize = 0;
    while i < ext.len()
        invariant
            i <= ext@.len(),
            file@ == start + ext@.take(i as int),
        decreases ext@.len() - i,
    {
        file.push(ext[i]);
        i = i + 1;
        assert(file@ =~= start + ext@.take(i as int));
    }
    assert(ext@.take(ext@.len() as int) =~= ext@);
    let file_name = string_from_chars(&file);
    asset_path(folder.as_str(), file_name.as_str())
}

/// What the scan of the first `k` slots knows: the oldest request is no
/// later than `now` and than any loaded slot scanned, and the slot that
/// made it, if any, is a loaded slot scanned; every slot found idle is a
/// loaded slot scanned, idle for at least [`CACHE_IDLE_MS`].
proof fn lemma_scan_facts(slots: Seq<SlotInfo>, now: u64, k: int)
    requires
        0 <= k <= slots.len(),
    ensures
        spec_scan(slots, now, k).oldest <= now,
        forall|j: int|
            0 <= j < k && (#[trigger] slots[j]).loaded ==> spec_scan(slots, now, k).oldest
                <= slots[j].last_request,
        spec_scan(slots, now, k).oldest_index matches Some(o) ==> 0 <= o < k && slots[o].loaded
            && slots[o].last_request as int == spec_scan(slots, now, k).oldest,
        forall|x: int|
            #![trigger spec_scan(slots, now, k).idle.contains(x)]
            spec_scan(slots, now, k).idle.contains(x) ==> 0 <= x < k && slots[x].loaded && now
                - slots[x].last_request >= CACHE_IDLE_MS,
    decreases k,
{
    if k > 0 {
        lemma_scan_facts(slots, now, k - 1);
        let before = spec_scan(slots, now, k - 1);
        let after = spec_scan(slots, now, k);
        assert forall|x: int| after.idle.contains(x) implies 0 <= x < k && slots[x].loaded && now
            - slots[x].last_request >= CACHE_IDLE_MS by {
            if !before.idle.contains(x) {
                let w = choose|w: int| 0 <= w < after.idle.len() && after.idle[w] == x;
                assert(w == before.idle.len());
            }
        }
    }
}

/// A slot found idle stays among the slots found idle as the scan goes on.
proof fn lemma_scan_keeps_idle(slots: Seq<SlotInfo>, now: u64, k: int, m: int, x: int)
    requires
        0 <= k <= m <= slots.len(),
        spec_scan(slots, now, k).idle.contains(x),
    ensures
        spec_scan(slots, now, m).idle.contains(x),
    decreases m - k,
{
    if k < m {
        lemma_scan_keeps_idle(slots, now, k, m - 1, x);
        let before = spec_scan(slots, now, m - 1);
        let w = choose|w: int| 0 <= w < before.idle.len() && before.idle[w] == x;
        assert(spec_scan(slots, now, m).idle[w] == x);
    }
}

/// Every loaded slot idle for at least [`CACHE_IDLE_MS`] is evicted,
/// whatever memory the cache holds, unless it was requested earlier than
/// every loaded slot before it (then it is the oldest so far, and leaves
/// only when the cache holds too much). Holding more than `limit` bytes
/// only adds the oldest slot to the slots evicted.
pub proof fn lemma_idle_slots_evicted(slots: Seq<SlotInfo>, now: u64, limit: u64, i: int, j: int)
    requires
        0 <= j < i < slots.len(),
        slots[i].loaded,
        slots[j].loaded,
        slots[j].last_request <= slots[i].last_request,
        now - slots[i].last_request >= CACHE_IDLE_MS,
    ensures
        spec_evictions(slots, now, limit).contains(i),
{
    lemma_scan_facts(slots, now, i);
    let before = spec_scan(slots, now, i);
    assert(before.oldest <= slots[j].last_request);
    let after = spec_scan(slots, now, i + 1);
    assert(after.idle == before.idle.push(i));
    assert(after.idle[before.idle.len() as int] == i);
    lemma_scan_keeps_idle(slots, now, i + 1, slots.len() as int, i);
    let scan = spec_scan(slots, now, slots.len() as int);
    let w = choose|w: int| 0 <= w < scan.idle.len() && scan.idle[w] == i;
    if spec_total_memory(slots) > limit {
        if let Some(o) = scan.oldest_index {
            assert(scan.idle.push(o)[w] == i);
        }
    }
}

/// Every slot evicted is a loaded slot of the cache. Within the memory
/// limit, only slots idle for at least [`CACHE_IDLE_MS`] are evicted; over
/// it, at most one more slot is, and it is the oldest found, requested no
/// later than any loaded slot.
pub proof fn lemma_evicted_slots(slots: Seq<SlotInfo>, now: u64, limit: u64, x: int)
    requires
        spec_evictions(slots, now, limit).contains(x),
    ensures
        0 <= x < slots.len(),
        slots[x].loaded,
        spec_total_memory(slots) <= limit ==> now - slots[x].last_request >= CACHE_IDLE_MS,
        now - slots[x].last_request < CACHE_IDLE_MS ==> forall|j: int|
            0 <= j < slots.len() && (#[trigger] slots[j]).loaded ==> slots[x].last_request
                <= slots[j].last_request,
{
    let n = slots.len() as int;
    lemma_scan_facts(slots, now, n);
    let scan = spec_scan(slots, now, n);
    if !scan.idle.contains(x) {
        let ev = spec_evictions(slots, now, limit);
        let w = choose|w: int| 0 <= w < ev.len() && ev[w] == x;
        if spec_total_memory(slots) > limit {
            if let Some(o) = scan.oldest_index {
                if w < scan.idle.len() {
                    assert(scan.idle[w] == x);
                }
            } else {
                assert(scan.idle[w] == x);
            }
        } else {
            assert(scan.idle[w] == x);
        }
    }
}

} // verus!
