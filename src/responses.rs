//! Pending responses of one runtime, keyed by correlation id.
use vstd::prelude::*;

verus! {

/// What a dispatched event asks for, and so what its response carries.
#[derive(Clone, Copy, Debug, PartialEq, Eq, Structural)]
pub enum EventKind {
    /// A DNS query to answer.
    Dns,
    /// An inbound HTTP request to serve.
    Http,
    /// A service call from another runtime.
    Service,
}

/// A response that a runtime owes: who waits for it and until when.
#[derive(Clone, Copy, Debug, PartialEq, Eq, Structural)]
pub struct PendingResponse {
    /// Correlation id of the event that asked for it.
    pub id: u32,
    pub kind: EventKind,
    /// The calling runtime, or `None` for a listener.
    pub caller: Option<u128>,
    /// Instant, in the caller's clock, after which the wait fails.
    pub deadline: u64,
}

/// The ids of `s` are pairwise distinct.
pub open spec fn ids_unique(s: Seq<PendingResponse>) -> bool {
    forall|i: int, j: int| 0 <= i < j < s.len() ==> s[i].id != s[j].id
}

/// Some entry of `s` carries the id `id`.
pub open spec fn has_id(s: Seq<PendingResponse>, id: u32) -> bool {
    exists|i: int| 0 <= i < s.len() && #[trigger] s[i].id == id
}

/// The map from correlation id to entry that `s` describes.
pub open spec fn pending_map(s: Seq<PendingResponse>) -> Map<u32, PendingResponse> {
    Map::new(
        |id: u32| has_id(s, id),
        |id: u32| s[choose|i: int| 0 <= i < s.len() && #[trigger] s[i].id == id],
    )
}

/// Entry `i` is the one that `pending_map(s)` reads for its id.
proof fn lemma_pending_entry(s: Seq<PendingResponse>, i: int)
    requires
        ids_unique(s),
        0 <= i < s.len(),
    ensures
        pending_map(s).contains_key(s[i].id),
        pending_map(s)[s[i].id] == s[i],
{
    let id = s[i].id;
    assert(has_id(s, id));
    let j = choose|j: int| 0 <= j < s.len() && #[trigger] s[j].id == id;
    assert(j == i);
}

/// The responses a runtime owes, at most one per correlation id.
pub struct ResponseTable {
    entries: Vec<PendingResponse>,
}

impl View for ResponseTable {
    type V = Map<u32, PendingResponse>;

    closed spec fn view(&self) -> Map<u32, PendingResponse> {
        pending_map(self.entries@)
    }
}

impl ResponseTable {
    /// The table is well formed: no id appears twice.
    pub closed spec fn wf(&self) -> bool {
        ids_unique(self.entries@)
    }

    /// A table that owes nothing.
    pub fn new() -> (r: Self)
        ensures
            r.wf(),
            r@ == Map::<u32, PendingResponse>::empty(),
    {
        let r = ResponseTable { entries: Vec::new() };
        assert(r@ =~= Map::<u32, PendingResponse>::empty());
        r
    }

    fn position(&self, id: u32) -> (r: Option<usize>)
        requires
            self.wf(),
        ensures
            match r {
                Some(i) => i < self.entries@.len() && self.entries@[i as int].id == id,
                None => !has_id(self.entries@, id),
            },
    {
        let mut i: usize = 0;
        while i < self.entries.len()
            invariant
                i <= self.entries@.len(),
                forall|j: int| 0 <= j < i ==> self.entries@[j].id != id,
            decreases self.entries@.len() - i,
        {
            if self.entries[i].id == id {
                return Some(i);
            }
            i += 1;
        }
        None
    }

    /// The entry owed under `id`, if any.
    pub fn get(&self, id: u32) -> (r: Option<PendingResponse>)
        requires
            self.wf(),
        ensures
            r == (if self@.contains_key(id) {
                Some(self@[id])
            } else {
                None::<PendingResponse>
            }),
    {
        match self.position(id) {
            Some(i) => {
                proof {
                    lemma_pending_entry(self.entries@, i as int);
                }
                Some(self.entries[i])
            },
            None => None,
        }
    }

    /// Records that `entry` is owed; its id must be free.
    pub fn insert(&mut self, entry: PendingResponse)
        requires
            old(self).wf(),
            !old(self)@.contains_key(entry.id),
        ensures
            final(self).wf(),
            final(self)@ == old(self)@.insert(entry.id, entry),
    {
        let ghost before = self.entries@;
        self.entries.push(entry);
        proof {
            let s = self.entries@;
            assert forall|a: int, b: int| 0 <= a < b < s.len() implies s[a].id != s[b].id by {
                if b == s.len() - 1 {
                    assert(before[a] == s[a]);
                    assert(has_id(before, s[a].id));
                } else {
                    assert(before[a] == s[a] && before[b] == s[b]);
                }
            }
            let target = old(self)@.insert(entry.id, entry);
            assert forall|id: u32| #[trigger] self@.contains_key(id) == target.contains_key(id) by {
                if has_id(s, id) {
                    let j = choose|j: int| 0 <= j < s.len() && #[trigger] s[j].id == id;
                    if j < before.len() {
                        assert(before[j].id == id);
                    }
                }
                if has_id(before, id) {
                    let j = choose|j: int| 0 <= j < before.len() && #[trigger] before[j].id == id;
                    assert(s[j].id == id);
                }
                if id == entry.id {
                    assert(s[s.len() - 1].id == id);
                }
            }
            assert forall|id: u32| #[trigger] self@.contains_key(id) implies self@[id]
                == target[id] by {
                let j = choose|j: int| 0 <= j < s.len() && #[trigger] s[j].id == id;
                lemma_pending_entry(s, j);
                if j < before.len() {
                    assert(before[j] == s[j]);
                    lemma_pending_entry(before, j);
                }
            }
            assert(self@ =~= target);
        }
    }

    /// Removes and returns the entry owed under `id`, if there is one.
    pub fn take(&mut self, id: u32) -> (r: Option<PendingResponse>)
        requires
            old(self).wf(),
        ensures
            final(self).wf(),
            final(self)@ == old(self)@.remove(id),
            r == (if old(self)@.contains_key(id) {
                Some(old(self)@[id])
            } else {
                None::<PendingResponse>
            }),
    {
        let ghost before = self.entries@;
        match self.position(id) {
            None => {
                assert(self@ =~= old(self)@.remove(id));
                None
            },
            Some(i) => {
                proof {
                    lemma_pending_entry(before, i as int);
                }
                let e = self.entries.remove(i);
                proof {
                    let s = self.entries@;
                    assert forall|a: int, b: int| 0 <= a < b < s.len() implies s[a].id
                        != s[b].id by {
                        let a0 = if a < i { a } else { a + 1 };
                        let b0 = if b < i { b } else { b + 1 };
                        assert(s[a] == before[a0] && s[b] == before[b0]);
                    }
                    let target = old(self)@.remove(id);
                    assert forall|k: u32| #[trigger] self@.contains_key(k) == target.contains_key(k)
                        by {
                        if has_id(s, k) {
                            let j = choose|j: int| 0 <= j < s.len() && #[trigger] s[j].id == k;
                            let j0 = if j < i { j } else { j + 1 };
                            assert(before[j0] == s[j]);
                        }
                        if target.contains_key(k) {
                            let j = choose|j: int| 0 <= j < before.len() && #[trigger] before[j].id == k;
                            assert(j != i);
                            let j1 = if j < i { j } else { j - 1 };
                            assert(s[j1] == before[j]);
                        }
                    }
                    assert forall|k: u32| #[trigger] self@.contains_key(k) implies self@[k]
                        == target[k] by {
                        let j = choose|j: int| 0 <= j < s.len() && #[trigger] s[j].id == k;
                        lemma_pending_entry(s, j);
                        let j0 = if j < i { j } else { j + 1 };
                        assert(before[j0] == s[j]);
                        lemma_pending_entry(before, j0);
                    }
                    assert(self@ =~= target);
                }
                Some(e)
            },
        }
    }

    /// Empties the table and returns what it owed, each entry once.
    pub fn drain(&mut self) -> (r: Vec<PendingResponse>)
        requires
            old(self).wf(),
        ensures
            final(self).wf(),
            final(self)@ == Map::<u32, PendingResponse>::empty(),
            ids_unique(r@),
            pending_map(r@) == old(self)@,
    {
        let mut out: Vec<PendingResponse> = Vec::new();
        std::mem::swap(&mut self.entries, &mut out);
        assert(self@ =~= Map::<u32, PendingResponse>::empty());
        out
    }
}

} // verus!
