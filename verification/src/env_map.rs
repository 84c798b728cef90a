//! A map from environment variable names to values, with at most one entry per name.
use crate::text::{owned, str_eq};
use crate::util::Duplicate;
use vstd::prelude::*;

verus! {

/// The names of the entries are pairwise distinct.
pub open spec fn keys_unique(e: Seq<(String, String)>) -> bool {
    forall|i: int, j: int| 0 <= i < e.len() && 0 <= j < e.len() && i != j ==> (#[trigger] e[i]).0@ != (#[trigger] e[j]).0@
}

/// `k` is the name of some entry.
pub open spec fn has_key(e: Seq<(String, String)>, k: Seq<char>) -> bool {
    exists|i: int| 0 <= i < e.len() && (#[trigger] e[i]).0@ == k
}

/// The entries as a map from names to values.
pub open spec fn entries_map(e: Seq<(String, String)>) -> Map<Seq<char>, Seq<char>> {
    Map::new(
        |k: Seq<char>| has_key(e, k),
        |k: Seq<char>| e[choose|i: int| 0 <= i < e.len() && (#[trigger] e[i]).0@ == k].1@,
    )
}

/// Environment variables by name; setting a name again replaces its value.
#[derive(Debug)]
pub struct EnvMap {
    entries: Vec<(String, String)>,
}

impl View for EnvMap {
    type V = Map<Seq<char>, Seq<char>>;

    closed spec fn view(&self) -> Map<Seq<char>, Seq<char>> {
        entries_map(self.entries@)
    }
}

impl EnvMap {
    #[verifier::type_invariant]
    closed spec fn wf(self) -> bool {
        keys_unique(self.entries@)
    }

    /// The entries, in the order the names were first set.
    pub closed spec fn entry_seq(self) -> Seq<(String, String)> {
        self.entries@
    }

    /// An empty map.
    pub fn new() -> (r: Self)
        ensures
            r@ == Map::<Seq<char>, Seq<char>>::empty(),
            r.entry_seq() == Seq::<(String, String)>::empty(),
    {
        let r = EnvMap { entries: Vec::new() };
        assert(r@ =~= Map::<Seq<char>, Seq<char>>::empty());
        r
    }

    /// The index of the entry named `key`.
    fn find(&self, key: &str) -> (r: Option<usize>)
        ensures
            match r {
                Some(i) => i < self.entries@.len() && self.entries@[i as int].0@ == key@,
                None => !has_key(self.entries@, key@),
            },
    {
        let mut i: usize = 0;
        while i < self.entries.len()
            invariant
                i <= self.entries@.len(),
                forall|j: int| 0 <= j < i ==> (#[trigger] self.entries@[j]).0@ != key@,
            decreases self.entries.len() - i,
        {
            if str_eq(self.entries[i].0.as_str(), key) {
                return Some(i);
            }
            i = i + 1;
        }
        None
    }

    /// The value of `key`, if set.
    pub fn get(&self, key: &str) -> (r: Option<&String>)
        ensures
            match r {
                Some(v) => self@.contains_key(key@) && self@[key@] == v@,
                None => !self@.contains_key(key@),
            },
    {
        proof {
            use_type_invariant(self);
        }
        match self.find(key) {
            Some(i) => {
                proof {
                    let e = self.entries@;
                    let c = choose|j: int| 0 <= j < e.len() && (#[trigger] e[j]).0@ == key@;
                    assert(e[i as int].0@ == key@);
                    assert(c == i);
                }
                Some(&self.entries[i].1)
            },
            None => None,
        }
    }

    /// Whether `key` is set.
    pub fn contains_key(&self, key: &str) -> (r: bool)
        ensures
            r == self@.contains_key(key@),
    {
        self.find(key).is_some()
    }

    /// The number of names set.
    pub fn len(&self) -> (r: usize)
        ensures
            r == self@.dom().len(),
    {
        proof {
            use_type_invariant(self);
            lemma_dom_len(self.entries@);
        }
        self.entries.len()
    }

    /// Set `key` to `value`, replacing an earlier value.
    pub fn insert(&mut self, key: String, value: String)
        ensures
            final(self)@ == old(self)@.insert(key@, value@),
    {
        proof {
            use_type_invariant(&*self);
        }
        let ghost e = self.entries@;
        match self.find(key.as_str()) {
            Some(i) => {
                let mut entries: Vec<(String, String)> = Vec::new();
                std::mem::swap(&mut entries, &mut self.entries);
                entries.set(i, (key, value));
                let ghost e2 = entries@;
                proof {
                    assert forall|a: int, b: int| 0 <= a < e2.len() && 0 <= b < e2.len() && a != b implies (#[trigger] e2[a]).0@ != (#[trigger] e2[b]).0@ by {
                        if a != i && b != i {
                            assert(e[a] == e2[a] && e[b] == e2[b]);
                        } else if a == i {
                            assert(e[b] == e2[b]);
                            assert(e[i as int].0@ == key@);
                        } else {
                            assert(e[a] == e2[a]);
                            assert(e[i as int].0@ == key@);
                        }
                    }
                    lemma_map_update(e, i as int, key@, value@, e2);
                }
                self.entries = entries;
            },
            None => {
                let mut entries: Vec<(String, String)> = Vec::new();
                std::mem::swap(&mut entries, &mut self.entries);
                entries.push((key, value));
                proof {
                    let e2 = entries@;
                    assert forall|a: int, b: int| 0 <= a < e2.len() && 0 <= b < e2.len() && a != b implies (#[trigger] e2[a]).0@ != (#[trigger] e2[b]).0@ by {
                        if a < e.len() && b < e.len() {
                            assert(e[a] == e2[a] && e[b] == e2[b]);
                        } else if a < e.len() {
                            assert(e[a] == e2[a]);
                        } else {
                            assert(e[b] == e2[b]);
                        }
                    }
                    lemma_map_push(e, e2);
                }
                self.entries = entries;
            },
        }
    }

    /// Set every entry of `other`, its values replacing earlier ones.
    pub fn extend(&mut self, other: &EnvMap)
        ensures
            final(self)@ == old(self)@.union_prefer_right(other@),
    {
        proof {
            use_type_invariant(other);
        }
        let ghost start = self@;
        let ghost oe = other.entries@;
        let mut i: usize = 0;
        assert(self@ =~= start.union_prefer_right(entries_map(oe.subrange(0, 0))));
        while i < other.entries.len()
            invariant
                i <= oe.len(),
                oe == other.entries@,
                keys_unique(oe),
                self@ == start.union_prefer_right(entries_map(oe.subrange(0, i as int))),
            decreases other.entries.len() - i,
        {
            let k = other.entries[i].0.clone();
            let v = other.entries[i].1.clone();
            let ghost before = self@;
            self.insert(k, v);
            proof {
                let p = oe.subrange(0, i as int);
                let q = oe.subrange(0, i + 1);
                assert(keys_unique(p)) by {
                    assert forall|a: int, b: int| 0 <= a < p.len() && 0 <= b < p.len() && a != b implies (#[trigger] p[a]).0@ != (#[trigger] p[b]).0@ by {
                        assert(p[a] == oe[a] && p[b] == oe[b]);
                    }
                }
                assert(keys_unique(q)) by {
                    assert forall|a: int, b: int| 0 <= a < q.len() && 0 <= b < q.len() && a != b implies (#[trigger] q[a]).0@ != (#[trigger] q[b]).0@ by {
                        assert(q[a] == oe[a] && q[b] == oe[b]);
                    }
                }
                lemma_map_push(p, q);
                assert(q[i as int] == oe[i as int]);
                assert(self@ =~= start.union_prefer_right(entries_map(q)));
            }
            i = i + 1;
        }
        assert(oe.subrange(0, oe.len() as int) =~= oe);
    }

    /// The entries, in the order the names were first set.
    pub fn entries(&self) -> (r: &Vec<(String, String)>)
        ensures
            r@ == self.entry_seq(),
            keys_unique(r@),
            self@ == entries_map(r@),
    {
        proof {
            use_type_invariant(self);
        }
        &self.entries
    }
}

impl Clone for EnvMap {
    /// A copy with the same entries.
    fn clone(&self) -> (r: Self)
        ensures
            r@ == self@,
            r.entry_seq().map_values(|x: (String, String)| (x.0@, x.1@)) == self.entry_seq().map_values(|x: (String, String)| (x.0@, x.1@)),
    {
        proof {
            use_type_invariant(self);
        }
        let entries = self.entries.duplicate();
        let ghost e = self.entries@;
        let ghost e2 = entries@;
        proof {
            assert(entries.deep_view() == self.entries.deep_view());
            assert(e2.len() == e.len()) by {
                assert(entries.deep_view().len() == self.entries.deep_view().len());
            }
            assert forall|i: int| 0 <= i < e.len() implies (#[trigger] e2[i]).0@ == e[i].0@ && e2[i].1@ == e[i].1@ by {
                assert(entries.deep_view()[i] == self.entries.deep_view()[i]);
                assert(entries.deep_view()[i] == e2[i].deep_view());
                assert(self.entries.deep_view()[i] == e[i].deep_view());
            }
            assert forall|a: int, b: int| 0 <= a < e2.len() && 0 <= b < e2.len() && a != b implies (#[trigger] e2[a]).0@ != (#[trigger] e2[b]).0@ by {
                assert(e2[a].0@ == e[a].0@ && e2[b].0@ == e[b].0@);
            }
            let m = entries_map(e);
            let m2 = entries_map(e2);
            assert forall|x: Seq<char>| m2.contains_key(x) <==> m.contains_key(x) by {
                if m.contains_key(x) {
                    let a = choose|a: int| 0 <= a < e.len() && (#[trigger] e[a]).0@ == x;
                    assert(e2[a].0@ == x);
                }
                if m2.contains_key(x) {
                    let a = choose|a: int| 0 <= a < e2.len() && (#[trigger] e2[a]).0@ == x;
                    assert(e[a].0@ == x);
                }
            }
            assert forall|x: Seq<char>| m2.contains_key(x) implies m2[x] == m[x] by {
                let a2 = choose|a: int| 0 <= a < e2.len() && (#[trigger] e2[a]).0@ == x;
                let a = choose|a: int| 0 <= a < e.len() && (#[trigger] e[a]).0@ == x;
                assert(e[a2].0@ == x);
                assert(a == a2);
            }
            assert(m2 =~= m);
            assert(e2.map_values(|x: (String, String)| (x.0@, x.1@)) =~= e.map_values(|x: (String, String)| (x.0@, x.1@)));
        }
        EnvMap { entries }
    }
}

/// Replacing the value of the entry at `i` (named `k`) sets `k` in the map.
proof fn lemma_map_update(e: Seq<(String, String)>, i: int, k: Seq<char>, v: Seq<char>, e2: Seq<(String, String)>)
    requires
        keys_unique(e),
        keys_unique(e2),
        0 <= i < e.len(),
        e[i].0@ == k,
        e2.len() == e.len(),
        e2[i].0@ == k,
        e2[i].1@ == v,
        forall|j: int| 0 <= j < e.len() && j != i ==> e2[j] == e[j],
    ensures
        entries_map(e2) == entries_map(e).insert(k, v),
{
    let m = entries_map(e);
    let m2 = entries_map(e2);
    assert forall|x: Seq<char>| m2.contains_key(x) <==> m.insert(k, v).contains_key(x) by {
        if m.contains_key(x) {
            let a = choose|a: int| 0 <= a < e.len() && (#[trigger] e[a]).0@ == x;
            if a != i {
                assert(e2[a] == e[a]);
            }
        }
        if m2.contains_key(x) {
            let a = choose|a: int| 0 <= a < e2.len() && (#[trigger] e2[a]).0@ == x;
            if a != i {
                assert(e2[a] == e[a]);
            }
        }
    }
    assert forall|x: Seq<char>| m2.contains_key(x) implies m2[x] == m.insert(k, v)[x] by {
        let a2 = choose|a: int| 0 <= a < e2.len() && (#[trigger] e2[a]).0@ == x;
        if x == k {
            assert(e2[i].0@ == x);
            assert(a2 == i);
        } else {
            assert(a2 != i);
            assert(e2[a2] == e[a2]);
            assert(e[a2].0@ == x);
            let a = choose|a: int| 0 <= a < e.len() && (#[trigger] e[a]).0@ == x;
            assert(a == a2);
        }
    }
    assert(m2 =~= m.insert(k, v));
}

/// Appending an entry with a new name adds it to the map.
proof fn lemma_map_push(e: Seq<(String, String)>, e2: Seq<(String, String)>)
    requires
        keys_unique(e),
        keys_unique(e2),
        e2.len() == e.len() + 1,
        forall|j: int| 0 <= j < e.len() ==> e2[j] == e[j],
    ensures
        entries_map(e2) == entries_map(e).insert(e2[e.len() as int].0@, e2[e.len() as int].1@),
{
    let n = e.len() as int;
    let k = e2[n].0@;
    let v = e2[n].1@;
    let m = entries_map(e);
    let m2 = entries_map(e2);
    assert forall|x: Seq<char>| m2.contains_key(x) <==> m.insert(k, v).contains_key(x) by {
        if m.contains_key(x) {
            let a = choose|a: int| 0 <= a < e.len() && (#[trigger] e[a]).0@ == x;
            assert(e2[a] == e[a]);
        }
        if m2.contains_key(x) {
            let a = choose|a: int| 0 <= a < e2.len() && (#[trigger] e2[a]).0@ == x;
            if a < n {
                assert(e2[a] == e[a]);
            }
        }
    }
    assert forall|x: Seq<char>| m2.contains_key(x) implies m2[x] == m.insert(k, v)[x] by {
        let a2 = choose|a: int| 0 <= a < e2.len() && (#[trigger] e2[a]).0@ == x;
        if x == k {
            assert(e2[n].0@ == x);
            assert(a2 == n);
        } else {
            assert(a2 != n);
            assert(e2[a2] == e[a2]);
            assert(e[a2].0@ == x);
            let a = choose|a: int| 0 <= a < e.len() && (#[trigger] e[a]).0@ == x;
            assert(a == a2);
        }
    }
    assert(m2 =~= m.insert(k, v));
}

/// With distinct names, the map has one key per entry.
proof fn lemma_dom_len(e: Seq<(String, String)>)
    requires
        keys_unique(e),
    ensures
        entries_map(e).dom().finite(),
        entries_map(e).dom().len() == e.len(),
    decreases e.len(),
{
    if e.len() == 0 {
        assert(entries_map(e).dom() =~= Set::<Seq<char>>::empty());
    } else {
        let p = e.drop_last();
        assert(keys_unique(p)) by {
            assert forall|a: int, b: int| 0 <= a < p.len() && 0 <= b < p.len() && a != b implies (#[trigger] p[a]).0@ != (#[trigger] p[b]).0@ by {
                assert(p[a] == e[a] && p[b] == e[b]);
            }
        }
        lemma_dom_len(p);
        lemma_map_push(p, e);
        let k = e[p.len() as int].0@;
        assert(!entries_map(p).dom().contains(k)) by {
            if entries_map(p).dom().contains(k) {
                let a = choose|a: int| 0 <= a < p.len() && (#[trigger] p[a]).0@ == k;
                assert(p[a] == e[a]);
            }
        }
        assert(entries_map(e).dom() =~= entries_map(p).dom().insert(k));
    }
}

} // verus!
