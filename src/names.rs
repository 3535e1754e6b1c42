//! A name-to-runtime index: hostnames, service names and release keys each
//! resolve to at most one runtime id, and a later bind replaces an earlier one.
use vstd::prelude::*;
use vstd::string::*;

verus! {

/// One entry of a [`NameIndex`].
pub struct Binding {
    pub name: String,
    pub id: u128,
}

/// The names of `s` are pairwise distinct.
pub open spec fn names_unique(s: Seq<Binding>) -> bool {
    forall|i: int, j: int| 0 <= i < j < s.len() ==> s[i].name@ != s[j].name@
}

/// Some entry of `s` carries the name `k`.
pub open spec fn has_name(s: Seq<Binding>, k: Seq<char>) -> bool {
    exists|i: int| 0 <= i < s.len() && #[trigger] s[i].name@ == k
}

/// The map that the entries of `s` describe.
pub open spec fn bindings_map(s: Seq<Binding>) -> Map<Seq<char>, u128> {
    Map::new(
        |k: Seq<char>| has_name(s, k),
        |k: Seq<char>| s[choose|i: int| 0 <= i < s.len() && #[trigger] s[i].name@ == k].id,
    )
}

/// `m` without the names bound to `id`.
pub open spec fn without_id(m: Map<Seq<char>, u128>, id: u128) -> Map<Seq<char>, u128> {
    Map::new(|k: Seq<char>| m.contains_key(k) && m[k] != id, |k: Seq<char>| m[k])
}

/// `b` repeats, with an id other than `id`, one of the first `n` entries of `s`.
pub open spec fn copied_from(s: Seq<Binding>, n: int, b: Binding, id: u128) -> bool {
    exists|t: int| 0 <= t < n && #[trigger] s[t].name@ == b.name@ && s[t].id == b.id && b.id != id
}

/// Entry `i` is the one that `bindings_map(s)` reads for its name.
proof fn lemma_entry_value(s: Seq<Binding>, i: int)
    requires
        names_unique(s),
        0 <= i < s.len(),
    ensures
        bindings_map(s).contains_key(s[i].name@),
        bindings_map(s)[s[i].name@] == s[i].id,
{
    let k = s[i].name@;
    assert(has_name(s, k));
    let j = choose|j: int| 0 <= j < s.len() && #[trigger] s[j].name@ == k;
    assert(j == i);
}

/// Names to runtime ids, last bind wins.
pub struct NameIndex {
    entries: Vec<Binding>,
}

impl View for NameIndex {
    type V = Map<Seq<char>, u128>;

    closed spec fn view(&self) -> Map<Seq<char>, u128> {
        bindings_map(self.entries@)
    }
}

impl NameIndex {
    /// The index is well formed: no name appears twice.
    pub closed spec fn wf(&self) -> bool {
        names_unique(self.entries@)
    }

    /// An index that binds no name.
    pub fn new() -> (r: Self)
        ensures
            r.wf(),
            r@ == Map::<Seq<char>, u128>::empty(),
    {
        let r = NameIndex { entries: Vec::new() };
        assert(r@ =~= Map::<Seq<char>, u128>::empty());
        r
    }

    /// Position of `name` among the entries, if it is bound.
    fn position(&self, name: &String) -> (r: Option<usize>)
        requires
            self.wf(),
        ensures
            match r {
                Some(i) => i < self.entries@.len() && self.entries@[i as int].name@ == name@,
                None => !has_name(self.entries@, name@),
            },
    {
        let mut i: usize = 0;
        while i < self.entries.len()
            invariant
                i <= self.entries@.len(),
                forall|j: int| 0 <= j < i ==> self.entries@[j].name@ != name@,
            decreases self.entries@.len() - i,
        {
            if self.entries[i].name == *name {
                return Some(i);
            }
            i += 1;
        }
        None
    }

    /// The id bound to `name`, if any.
    pub fn get(&self, name: &str) -> (r: Option<u128>)
        requires
            self.wf(),
        ensures
            r == (if self@.contains_key(name@) {
                Some(self@[name@])
            } else {
                None::<u128>
            }),
    {
        let key = String::from_str(name);
        match self.position(&key) {
            Some(i) => {
                proof {
                    lemma_entry_value(self.entries@, i as int);
                }
                Some(self.entries[i].id)
            },
            None => None,
        }
    }

    /// Binds `name` to `id`, replacing any earlier binding of `name`.
    pub fn bind(&mut self, name: &str, id: u128)
        requires
            old(self).wf(),
        ensures
            final(self).wf(),
            final(self)@ == old(self)@.insert(name@, id),
    {
        let key = String::from_str(name);
        let ghost old_entries = self.entries@;
        match self.position(&key) {
            Some(i) => {
                self.entries.set(i, Binding { name: key, id });
                let ghost s = self.entries@;
                assert(names_unique(s)) by {
                    assert forall|a: int, b: int| 0 <= a < b < s.len() implies s[a].name@
                        != s[b].name@ by {
                        if a != i && b != i {
                            assert(old_entries[a] == s[a] && old_entries[b] == s[b]);
                        }
                    }
                }
                assert forall|k: Seq<char>| #[trigger] self@.contains_key(k) == old(self)@.insert(
                    name@,
                    id,
                ).contains_key(k) by {
                    if has_name(s, k) {
                        let j = choose|j: int| 0 <= j < s.len() && #[trigger] s[j].name@ == k;
                        if j != i {
                            assert(old_entries[j].name@ == k);
                        }
                    }
                    if has_name(old_entries, k) {
                        let j = choose|j: int|
                            0 <= j < old_entries.len() && #[trigger] old_entries[j].name@ == k;
                        if j != i {
                            assert(s[j].name@ == k);
                        } else {
                            assert(s[i as int].name@ == k);
                        }
                    }
                }
                assert forall|k: Seq<char>| #[trigger] self@.contains_key(k) implies self@[k]
                    == old(self)@.insert(name@, id)[k] by {
                    let j = choose|j: int| 0 <= j < s.len() && #[trigger] s[j].name@ == k;
                    lemma_entry_value(s, j);
                    if j != i {
                        assert(old_entries[j] == s[j]);
                        lemma_entry_value(old_entries, j);
                    }
                }
                assert(self@ =~= old(self)@.insert(name@, id));
            },
            None => {
                self.entries.push(Binding { name: key, id });
                let ghost s = self.entries@;
                assert(names_unique(s)) by {
                    assert forall|a: int, b: int| 0 <= a < b < s.len() implies s[a].name@
                        != s[b].name@ by {
                        if b == s.len() - 1 {
                            assert(old_entries[a].name@ == s[a].name@);
                        } else {
                            assert(old_entries[a] == s[a] && old_entries[b] == s[b]);
                        }
                    }
                }
                assert forall|k: Seq<char>| #[trigger] self@.contains_key(k) == old(self)@.insert(
                    name@,
                    id,
                ).contains_key(k) by {
                    if has_name(s, k) {
                        let j = choose|j: int| 0 <= j < s.len() && #[trigger] s[j].name@ == k;
                        if j < old_entries.len() {
                            assert(old_entries[j].name@ == k);
                        }
                    }
                    if has_name(old_entries, k) {
                        let j = choose|j: int|
                            0 <= j < old_entries.len() && #[trigger] old_entries[j].name@ == k;
                        assert(s[j].name@ == k);
                    }
                    if k == name@ {
                        assert(s[s.len() - 1].name@ == k);
                    }
                }
                assert forall|k: Seq<char>| #[trigger] self@.contains_key(k) implies self@[k]
                    == old(self)@.insert(name@, id)[k] by {
                    let j = choose|j: int| 0 <= j < s.len() && #[trigger] s[j].name@ == k;
                    lemma_entry_value(s, j);
                    if j < old_entries.len() {
                        assert(old_entries[j] == s[j]);
                        lemma_entry_value(old_entries, j);
                    }
                }
                assert(self@ =~= old(self)@.insert(name@, id));
            },
        }
    }

    /// Drops every name bound to `id`; the other bindings stay as they were.
    pub fn unbind_id(&mut self, id: u128)
        requires
            old(self).wf(),
        ensures
            final(self).wf(),
            final(self)@ == without_id(old(self)@, id),
    {
        let ghost s = self.entries@;
        let mut kept: Vec<Binding> = Vec::new();
        let mut i: usize = 0;
        while i < self.entries.len()
            invariant
                s == self.entries@,
                names_unique(s),
                i <= s.len(),
                names_unique(kept@),
                forall|j: int| 0 <= j < kept@.len() ==> copied_from(s, i as int, #[trigger] kept@[j], id),
                forall|t: int|
                    0 <= t < i && s[t].id != id ==> has_name(kept@, #[trigger] s[t].name@),
            decreases s.len() - i,
        {
            if self.entries[i].id != id {
                let b = Binding { name: self.entries[i].name.clone(), id: self.entries[i].id };
                let ghost before = kept@;
                kept.push(b);
                proof {
                    let k = kept@;
                    assert forall|a: int, c: int| 0 <= a < c < k.len() implies k[a].name@
                        != k[c].name@ by {
                        if c == k.len() - 1 {
                            assert(before[a] == k[a]);
                            let t = choose|t: int|
                                0 <= t < i && #[trigger] s[t].name@ == before[a].name@ && s[t].id
                                    == before[a].id && before[a].id != id;
                            assert(t != i);
                        } else {
                            assert(before[a] == k[a] && before[c] == k[c]);
                        }
                    }
                    assert forall|j: int| 0 <= j < k.len() implies copied_from(
                        s,
                        i + 1,
                        #[trigger] k[j],
                        id,
                    ) by {
                        if j == k.len() - 1 {
                            assert(s[i as int].name@ == k[j].name@);
                        } else {
                            assert(before[j] == k[j]);
                        }
                    }
                    assert forall|t: int| 0 <= t < i + 1 && s[t].id != id implies has_name(
                        k,
                        #[trigger] s[t].name@,
                    ) by {
                        if t == i {
                            assert(k[k.len() - 1].name@ == s[t].name@);
                        } else {
                            let j = choose|j: int|
                                0 <= j < before.len() && #[trigger] before[j].name@ == s[t].name@;
                            assert(k[j] == before[j]);
                        }
                    }
                }
            }
            i += 1;
        }
        let ghost old_view = self@;
        self.entries = kept;
        proof {
            let k = self.entries@;
            let target = without_id(old_view, id);
            assert forall|n: Seq<char>| #[trigger] self@.contains_key(n) == target.contains_key(n)
                by {
                if has_name(k, n) {
                    let j = choose|j: int| 0 <= j < k.len() && #[trigger] k[j].name@ == n;
                    let t = choose|t: int|
                        0 <= t < s.len() && #[trigger] s[t].name@ == k[j].name@ && s[t].id
                            == k[j].id && k[j].id != id;
                    lemma_entry_value(s, t);
                }
                if target.contains_key(n) {
                    let t = choose|t: int| 0 <= t < s.len() && #[trigger] s[t].name@ == n;
                    lemma_entry_value(s, t);
                }
            }
            assert forall|n: Seq<char>| #[trigger] self@.contains_key(n) implies self@[n]
                == target[n] by {
                let j = choose|j: int| 0 <= j < k.len() && #[trigger] k[j].name@ == n;
                lemma_entry_value(k, j);
                let t = choose|t: int|
                    0 <= t < s.len() && #[trigger] s[t].name@ == k[j].name@ && s[t].id == k[j].id
                        && k[j].id != id;
                lemma_entry_value(s, t);
            }
            assert(self@ =~= target);
        }
    }
}

} // verus!
