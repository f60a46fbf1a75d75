//! Which drawing context of the launcher's windows is current. The main
//! window and the overlay above a running game each draw with a context of
//! their own, and at most one context is current at a time. The tracker
//! decides which contexts to switch; the window code performs the switch
//! and reports whether making a context current worked.
use vstd::prelude::*;

verus! {

/// Whether a window's drawing context may be current.
#[derive(Copy, Clone, Debug, PartialEq, Eq, Structural)]
pub enum ContextCurrency {
    PossiblyCurrent,
    NotCurrent,
}

/// What must happen before drawing with a context.
#[derive(Copy, Clone, Debug, PartialEq, Eq, Structural)]
pub enum ContextStep {
    /// The context is current already.
    Ready,
    /// The context must be made current; `previous` was current until now.
    MakeCurrent { previous: Option<usize> },
}

/// The drawing contexts by id, in the order they were added, and the one
/// that is current.
pub struct ContextTracker {
    pub current: Option<usize>,
    pub others: Vec<(usize, ContextCurrency)>,
    pub next_id: usize,
}

/// `others` with the context `id`, if there is one, no longer current.
pub open spec fn spec_demote(others: Seq<(usize, ContextCurrency)>, id: Option<usize>) -> Seq<
    (usize, ContextCurrency),
> {
    others.map_values(
        |e: (usize, ContextCurrency)|
            if id == Some(e.0) {
                (e.0, ContextCurrency::NotCurrent)
            } else {
                e
            },
    )
}

/// `others` with the context `id` current.
pub open spec fn spec_promote(others: Seq<(usize, ContextCurrency)>, id: usize) -> Seq<
    (usize, ContextCurrency),
> {
    others.map_values(
        |e: (usize, ContextCurrency)|
            if e.0 == id {
                (e.0, ContextCurrency::PossiblyCurrent)
            } else {
                e
            },
    )
}

/// The ids of `others` increase strictly.
pub open spec fn spec_ids_sorted(others: Seq<(usize, ContextCurrency)>) -> bool {
    forall|i: int, j: int| 0 <= i < j < others.len() ==> others[i].0 < others[j].0
}

impl ContextTracker {
    /// Ids increase in the order the contexts were added and stay below
    /// the next id; a context may be current exactly when it is the one
    /// recorded as current, which is one of the contexts.
    pub open spec fn wf(&self) -> bool {
        &&& spec_ids_sorted(self.others@)
        &&& forall|i: int| 0 <= i < self.others@.len() ==> #[trigger] self.others@[i].0 < self.next_id
        &&& forall|i: int|
            0 <= i < self.others@.len() ==> (#[trigger] self.others@[i].1
                == ContextCurrency::PossiblyCurrent <==> self.current == Some(self.others@[i].0))
        &&& self.current is Some ==> self.has(self.current->0)
    }

    /// Whether the tracker holds the context `id`.
    pub open spec fn has(&self, id: usize) -> bool {
        exists|i: int| 0 <= i < self.others@.len() && #[trigger] self.others@[i].0 == id
    }

    /// No contexts, none current.
    pub fn new() -> (t: ContextTracker)
        ensures
            t.wf(),
            t.current is None,
            t.others@.len() == 0,
            t.next_id == 0,
    {
        ContextTracker { current: None, others: Vec::new(), next_id: 0 }
    }

    /// The place of the context `id` among the contexts, found by halving
    /// the range of ids; `None` if there is no such context.
    pub fn position(&self, id: usize) -> (p: Option<usize>)
        requires
            spec_ids_sorted(self.others@),
        ensures
            match p {
                Some(i) => i < self.others@.len() && self.others@[i as int].0 == id,
                None => !self.has(id),
            },
    {
        let mut lo: usize = 0;
        let mut hi: usize = self.others.len();
        while lo < hi
            invariant
                spec_ids_sorted(self.others@),
                lo <= hi <= self.others@.len(),
                forall|i: int| 0 <= i < lo ==> #[trigger] self.others@[i].0 < id,
                forall|i: int| hi <= i < self.others@.len() ==> #[trigger] self.others@[i].0 > id,
            decreases hi - lo,
        {
            let mid = lo + (hi - lo) / 2;
            let m = self.others[mid].0;
            if m == id {
                return Some(mid);
            } else if m < id {
                assert forall|i: int| 0 <= i < mid + 1 implies #[trigger] self.others@[i].0 < id by {
                    if i < mid {
                        assert(self.others@[i].0 < self.others@[mid as int].0);
                    }
                }
                lo = mid + 1;
            } else {
                assert forall|i: int| mid <= i < self.others@.len() implies #[trigger] self.others@[i].0
                    > id by {
                    if i > mid {
                        assert(self.others@[mid as int].0 < self.others@[i].0);
                    }
                }
                hi = mid;
            }
        }
        None
    }

    /// Adds a context and returns its id, with the context that was
    /// current and must now be treated as not current when the new one
    /// may be current.
    pub fn insert(&mut self, currency: ContextCurrency) -> (r: (usize, Option<usize>))
        requires
            old(self).wf(),
            old(self).next_id < usize::MAX,
        ensures
            final(self).wf(),
            r.0 == old(self).next_id,
            final(self).next_id == old(self).next_id + 1,
            r.1 == (if currency == ContextCurrency::PossiblyCurrent {
                old(self).current
            } else {
                None
            }),
            final(self).current == (if currency == ContextCurrency::PossiblyCurrent {
                Some(r.0)
            } else {
                old(self).current
            }),
            final(self).others@ == (if currency == ContextCurrency::PossiblyCurrent {
                spec_demote(old(self).others@, old(self).current)
            } else {
                old(self).others@
            }).push((r.0, currency)),
    {
        let ghost before = *self;
        let id = self.next_id;
        self.next_id = self.next_id + 1;
        let mut demoted: Option<usize> = None;
        if currency == ContextCurrency::PossiblyCurrent {
            demoted = self.current;
            self.demote(self.current);
            self.current = Some(id);
        }
        let ghost middle = self.others@;
        self.others.push((id, currency));
        proof {
            let others = self.others@;
            assert forall|i: int| 0 <= i < middle.len() implies #[trigger] middle[i].0 == before.others@[i].0
                && (middle[i].1 == ContextCurrency::PossiblyCurrent <==> (before.current == Some(
                middle[i].0) && currency != ContextCurrency::PossiblyCurrent)) by {
            }
            assert(others[others.len() - 1] == (id, currency));
            assert forall|i: int| 0 <= i < others.len() implies #[trigger] others[i].0 < self.next_id by {
                if i < middle.len() {
                    assert(before.others@[i].0 < before.next_id);
                }
            }
            assert forall|i: int, j: int| 0 <= i < j < others.len() implies others[i].0 < others[j].0 by {
                assert(before.others@[i].0 < before.next_id);
                if j < middle.len() {
                    assert(before.others@[i].0 < before.others@[j].0);
                }
            }
            assert forall|i: int| 0 <= i < others.len() implies (#[trigger] others[i].1
                == ContextCurrency::PossiblyCurrent <==> self.current == Some(others[i].0)) by {
                if i < middle.len() {
                    assert(before.others@[i].0 < before.next_id);
                    if before.current == Some(before.others@[i].0) {
                        assert(before.others@[i].1 == ContextCurrency::PossiblyCurrent);
                    }
                }
            }
            if self.current is Some {
                if currency == ContextCurrency::PossiblyCurrent {
                    assert(others[others.len() - 1].0 == id);
                } else {
                    let w = choose|w: int| 0 <= w < before.others@.len() && #[trigger] before.others@[w].0
                        == before.current->0;
                    assert(others[w].0 == before.current->0);
                }
            }
        }
        (id, demoted)
    }

    /// Marks the context `id`, if there is one, as not current.
    fn demote(&mut self, id: Option<usize>)
        requires
            spec_ids_sorted(old(self).others@),
            forall|i: int|
                0 <= i < old(self).others@.len() ==> #[trigger] old(self).others@[i].0 < old(
                    self,
                ).next_id,
        ensures
            final(self).current == old(self).current,
            final(self).next_id == old(self).next_id,
            final(self).others@ == spec_demote(old(self).others@, id),
    {
        let ghost before = self.others@;
        if let Some(c) = id {
            let mut k: usize = 0;
            while k < self.others.len()
                invariant
                    id == Some(c),
                    self.current == old(self).current,
                    self.next_id == old(self).next_id,
                    self.others@.len() == before.len(),
                    k <= before.len(),
                    forall|i: int| 0 <= i < k ==> #[trigger] self.others@[i] == spec_demote(before, id)[i],
                    forall|i: int| k <= i < before.len() ==> #[trigger] self.others@[i] == before[i],
                decreases before.len() - k,
            {
                let e = self.others[k];
                if e.0 == c {
                    self.others.set(k, (c, ContextCurrency::NotCurrent));
                }
                k = k + 1;
            }
        }
        assert(self.others@ =~= spec_demote(before, id));
    }

    /// What must happen before drawing with the context `id`.
    pub fn get_current(&self, id: usize) -> (step: ContextStep)
        ensures
            step == (if self.current == Some(id) {
                ContextStep::Ready
            } else {
                ContextStep::MakeCurrent { previous: self.current }
            }),
    {
        match self.current {
            Some(c) => {
                if c == id {
                    ContextStep::Ready
                } else {
                    ContextStep::MakeCurrent { previous: self.current }
                }
            },
            None => ContextStep::MakeCurrent { previous: None },
        }
    }

    /// Records the outcome of making the context `id` current. Either way
    /// the context that was current is current no longer: it was treated
    /// as not current when the switch worked, and must be made not current
    /// when it failed, after which no context is current. Returns that
    /// context.
    pub fn finish_switch(&mut self, id: usize, made_current: bool) -> (previous: Option<usize>)
        requires
            old(self).wf(),
            old(self).has(id),
            old(self).current != Some(id),
        ensures
            final(self).wf(),
            previous == old(self).current,
            final(self).next_id == old(self).next_id,
            final(self).current == (if made_current {
                Some(id)
            } else {
                None
            }),
            final(self).others@ == (if made_current {
                spec_promote(spec_demote(old(self).others@, old(self).current), id)
            } else {
                spec_demote(old(self).others@, old(self).current)
            }),
    {
        let previous = self.current;
        let ghost before = self.others@;
        self.demote(previous);
        let ghost demoted = self.others@;
        if made_current {
            let p = self.position(id);
            proof {
                assert forall|i: int| 0 <= i < demoted.len() implies #[trigger] demoted[i].0
                    == before[i].0 by {
                }
            }
            match p {
                Some(i) => {
                    self.others.set(i, (id, ContextCurrency::PossiblyCurrent));
                    proof {
                        assert forall|j: int| 0 <= j < demoted.len() && j != i implies demoted[j].0
                            != id by {
                            if j < i {
                                assert(demoted[j].0 < demoted[i as int].0);
                            } else {
                                assert(demoted[i as int].0 < demoted[j].0);
                            }
                        }
                        assert(self.others@ =~= spec_promote(demoted, id));
                    }
                },
                None => {
                    proof {
                        let w = choose|w: int| 0 <= w < before.len() && #[trigger] before[w].0 == id;
                        assert(demoted[w].0 == id);
                    }
                },
            }
            self.current = Some(id);
        } else {
            self.current = None;
        }
        proof {
            assert forall|i: int| 0 <= i < self.others@.len() implies #[trigger] self.others@[i].0
                == before[i].0 by {
            }
            if made_current {
                let w = choose|w: int| 0 <= w < before.len() && #[trigger] before[w].0 == id;
                assert(self.others@[w].0 == id);
            }
        }
        previous
    }
}

impl Default for ContextTracker {
    fn default() -> (t: ContextTracker)
        ensures
            t.wf(),
            t.current is None,
            t.others@.len() == 0,
            t.next_id == 0,
    {
        ContextTracker::new()
    }
}

/// At most one context may be current at a time.
pub proof fn lemma_at_most_one_current(t: ContextTracker, i: int, j: int)
    requires
        t.wf(),
        0 <= i < t.others@.len(),
        0 <= j < t.others@.len(),
        t.others@[i].1 == ContextCurrency::PossiblyCurrent,
        t.others@[j].1 == ContextCurrency::PossiblyCurrent,
    ensures
        i == j,
{
    if i < j {
        assert(t.others@[i].0 < t.others@[j].0);
    } else if j < i {
        assert(t.others@[j].0 < t.others@[i].0);
    }
}

} // verus!
