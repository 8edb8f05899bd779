//! A small verified association map with string keys: each key bound to at
//! most one value, modelled as a mathematical map from the key's characters
//! to the value.  Both the record collection and the funder ledger are built
//! on it.

use vstd::prelude::*;

verus! {

/// True iff some entry of `s` carries the key `k`.
pub(crate) open spec fn has_key<V>(s: Seq<(String, V)>, k: Seq<char>) -> bool {
    exists|i: int| 0 <= i < s.len() && (#[trigger] s[i].0)@ == k
}

/// The index of the entry of `s` carrying the key `k` (unique when keys are
/// distinct).
pub(crate) open spec fn idx_of<V>(s: Seq<(String, V)>, k: Seq<char>) -> int {
    choose|i: int| 0 <= i < s.len() && (#[trigger] s[i].0)@ == k
}

/// No two entries of `s` share a key.
pub(crate) open spec fn keys_distinct<V>(s: Seq<(String, V)>) -> bool {
    forall|i: int, j: int|
        0 <= i < j < s.len() ==> (#[trigger] s[i].0)@ != (#[trigger] s[j].0)@
}

/// The mathematical map an entry sequence denotes.
pub(crate) open spec fn map_of<V>(s: Seq<(String, V)>) -> Map<Seq<char>, V> {
    Map::new(|k: Seq<char>| has_key(s, k), |k: Seq<char>| s[idx_of(s, k)].1)
}

/// With distinct keys, the entry carrying a key is the one `idx_of` picks.
proof fn lemma_idx_of_is<V>(s: Seq<(String, V)>, k: Seq<char>, i: int)
    requires
        keys_distinct(s),
        0 <= i < s.len(),
        s[i].0@ == k,
    ensures
        idx_of(s, k) == i,
{
    assert(has_key(s, k));
    let j = idx_of(s, k);
    assert(0 <= j < s.len() && s[j].0@ == k);
    if j < i {
        assert(s[j].0@ != s[i].0@);
    } else if i < j {
        assert(s[i].0@ != s[j].0@);
    }
}

/// With distinct keys, the map holds each entry at its key.
proof fn lemma_map_of_at<V>(s: Seq<(String, V)>, i: int)
    requires
        keys_distinct(s),
        0 <= i < s.len(),
    ensures
        map_of(s).contains_key(s[i].0@),
        map_of(s)[s[i].0@] == s[i].1,
{
    assert(has_key(s, s[i].0@));
    lemma_idx_of_is(s, s[i].0@, i);
}

/// The empty map's contents.
pub open spec fn empty_map<V>() -> Map<Seq<char>, V> {
    Map::empty()
}

/// String-keyed association map: each key bound to at most one value.
pub struct StrMap<V> {
    entries: Vec<(String, V)>,
}

impl<V> View for StrMap<V> {
    type V = Map<Seq<char>, V>;

    closed spec fn view(&self) -> Map<Seq<char>, V> {
        map_of(self.entries@)
    }
}

impl<V> StrMap<V> {
    /// Well-formedness: no key is bound twice.
    pub closed spec fn wf(self) -> bool {
        keys_distinct(self.entries@)
    }

    /// An empty map.
    pub fn new() -> (r: StrMap<V>)
        ensures
            r.wf(),
            r@ == empty_map::<V>(),
    {
        let r = StrMap { entries: Vec::new() };
        proof {
            assert(r@ =~= empty_map::<V>());
        }
        r
    }

    /// The value stored under `k`, if any.
    pub fn get(&self, k: &String) -> (r: Option<&V>)
        requires
            self.wf(),
        ensures
            match r {
                Some(v) => self@.contains_key(k@) && *v == self@[k@],
                None => !self@.contains_key(k@),
            },
    {
        let n = self.entries.len();
        let mut i: usize = 0;
        while i < n
            invariant
                self.wf(),
                n == self.entries@.len(),
                0 <= i <= n,
                forall|j: int| 0 <= j < i ==> (#[trigger] self.entries@[j].0)@ != k@,
            decreases n - i,
        {
            if self.entries[i].0 == *k {
                proof {
                    lemma_map_of_at(self.entries@, i as int);
                }
                return Some(&self.entries[i].1);
            }
            i += 1;
        }
        proof {
            assert(!has_key(self.entries@, k@));
        }
        None
    }

    /// Binds `k` to `v`, replacing any value previously stored under `k`.
    pub fn insert(&mut self, k: String, v: V)
        requires
            old(self).wf(),
        ensures
            final(self).wf(),
            final(self)@ == old(self)@.insert(k@, v),
    {
        let ghost s0 = self.entries@;
        let n = self.entries.len();
        let mut i: usize = 0;
        while i < n
            invariant
                self.entries@ == s0,
                old(self).entries@ == s0,
                keys_distinct(s0),
                n == s0.len(),
                0 <= i <= n,
                forall|j: int| 0 <= j < i ==> (#[trigger] s0[j].0)@ != k@,
            decreases n - i,
        {
            if self.entries[i].0 == k {
                self.entries[i] = (k, v);
                proof {
                    let s1 = self.entries@;
                    assert(s1 == s0.update(i as int, s1[i as int]));
                    assert(forall|j: int|
                        0 <= j < s1.len() ==> (#[trigger] s1[j].0)@ == s0[j].0@);
                    assert(self.wf());
                    lemma_map_of_at(s1, i as int);
                    assert forall|x: Seq<char>| has_key(s1, x) implies has_key(s0, x) by {
                        let j = idx_of(s1, x);
                        assert(0 <= j < s1.len() && s1[j].0@ == x);
                        assert(s0[j].0@ == x);
                    }
                    assert forall|x: Seq<char>| has_key(s0, x) implies has_key(s1, x) by {
                        let j = idx_of(s0, x);
                        assert(0 <= j < s0.len() && s0[j].0@ == x);
                        assert(s1[j].0@ == x);
                    }
                    assert forall|x: Seq<char>|
                        map_of(s1).contains_key(x) implies map_of(s1)[x] == map_of(s0).insert(
                        s0[i as int].0@,
                        v,
                    )[x] by {
                        if x == s0[i as int].0@ {
                            assert(map_of(s1)[x] == v);
                        } else {
                            let j = idx_of(s1, x);
                            assert(0 <= j < s1.len() && s1[j].0@ == x);
                            assert(j != i as int);
                            assert(s0[j].0@ == x);
                            lemma_map_of_at(s0, j);
                            lemma_idx_of_is(s1, x, j);
                        }
                    }
                    assert(map_of(s1) =~= map_of(s0).insert(k@, v));
                }
                return ;
            }
            i += 1;
        }
        self.entries.push((k, v));
        proof {
            let s1 = self.entries@;
            assert(s1 == s0.push(s1[n as int]));
            assert(forall|j: int| 0 <= j < n ==> (#[trigger] s1[j].0)@ == s0[j].0@);
            assert(s1[n as int].0@ == k@);
            assert(!has_key(s0, k@));
            assert(self.wf());
            assert forall|x: Seq<char>|
                map_of(s1).contains_key(x) implies map_of(s1)[x] == map_of(s0).insert(k@, v)[x] by {
                let j = idx_of(s1, x);
                assert(0 <= j < s1.len() && s1[j].0@ == x);
                if j == n as int {
                    lemma_idx_of_is(s1, x, n as int);
                } else {
                    assert(s0[j].0@ == x);
                    assert(x != k@);
                    lemma_map_of_at(s0, j);
                    lemma_idx_of_is(s1, x, j);
                }
            }
            assert forall|x: Seq<char>| map_of(s0).insert(k@, v).contains_key(
                x,
            ) implies map_of(s1).contains_key(x) by {
                if x == k@ {
                    assert(s1[n as int].0@ == x);
                } else {
                    let j = idx_of(s0, x);
                    assert(0 <= j < s0.len() && s0[j].0@ == x);
                    assert(s1[j].0@ == x);
                }
            }
            assert(map_of(s1) =~= map_of(s0).insert(k@, v));
        }
    }
}

} // verus!
