//! The keys of the jobs sent to the job threads, so that a job asked for
//! under a key is not asked for again.
use vstd::prelude::*;
use crate::text::str_eq;

verus! {

/// The keys under which jobs were sent, in the order they were sent.
pub struct SentKeys {
    pub keys: Vec<String>,
}

impl SentKeys {
    /// Whether a job was sent under `key`.
    pub open spec fn has(&self, key: Seq<char>) -> bool {
        exists|i: int| 0 <= i < self.keys@.len() && #[trigger] self.keys@[i]@ == key
    }
}

impl View for SentKeys {
    type V = Set<Seq<char>>;

    open spec fn view(&self) -> Set<Seq<char>> {
        Set::new(|k: Seq<char>| self.has(k))
    }
}

impl SentKeys {
    /// No job sent yet.
    pub fn new() -> (s: SentKeys)
        ensures
            s@ == Set::<Seq<char>>::empty(),
    {
        let s = SentKeys { keys: Vec::new() };
        assert(s@ =~= Set::<Seq<char>>::empty());
        s
    }

    /// Whether a job was sent under `key` before.
    pub fn already_sent(&self, key: String) -> (b: bool)
        ensures
            b == self@.contains(key@),
    {
        let mut i: usize = 0;
        while i < self.keys.len()
            invariant
                i <= self.keys@.len(),
                forall|j: int| 0 <= j < i ==> #[trigger] self.keys@[j]@ != key@,
            decreases self.keys@.len() - i,
        {
            if str_eq(self.keys[i].as_str(), key.as_str()) {
                assert(self.has(key@));
                return true;
            }
            i = i + 1;
        }
        false
    }

    /// Records that a job is sent under `key`.
    pub fn insert(&mut self, key: String)
        ensures
            final(self)@ == old(self)@.insert(key@),
    {
        let ghost k = key@;
        self.keys.push(key);
        proof {
            assert forall|x: Seq<char>| #[trigger] self@.contains(x) == old(self)@.insert(k).contains(x) by {
                if old(self).has(x) {
                    let i = choose|i: int| 0 <= i < old(self).keys@.len() && #[trigger] old(self).keys@[i]@
                        == x;
                    assert(self.keys@[i]@ == x);
                }
                if x == k {
                    assert(self.keys@[self.keys@.len() - 1]@ == x);
                }
                if self.has(x) && x != k {
                    let i = choose|i: int| 0 <= i < self.keys@.len() && #[trigger] self.keys@[i]@ == x;
                    assert(i < old(self).keys@.len());
                    assert(old(self).keys@[i]@ == x);
                }
            }
            assert(self@ =~= old(self)@.insert(k));
        }
    }
}

/// A key recorded is found as sent afterwards, and every other key keeps
/// its answer.
pub proof fn lemma_sent_then_found(keys: Set<Seq<char>>, key: Seq<char>, other: Seq<char>)
    ensures
        keys.insert(key).contains(key),
        other != key ==> keys.insert(key).contains(other) == keys.contains(other),
{
}

} // verus!
