//! A map keyed by byte strings, kept as a list of entries with unique keys.

use vstd::prelude::*;

verus! {

/// Whether `a` and `b` hold the same bytes.
pub fn bytes_eq(a: &[u8], b: &[u8]) -> (r: bool)
    ensures
        r == (a@ == b@),
{
    if a.len() != b.len() {
        return false;
    }
    let mut i: usize = 0;
    while i < a.len()
        invariant
            a@.len() == b@.len(),
            0 <= i <= a@.len(),
            forall|j: int| 0 <= j < i ==> a@[j] == b@[j],
        decreases a@.len() - i,
    {
        if a[i] != b[i] {
            return false;
        }
        i = i + 1;
    }
    assert(a@ =~= b@);
    true
}

/// A copy of `b`.
pub fn copy_bytes(b: &Vec<u8>) -> (r: Vec<u8>)
    ensures
        r@ == b@,
{
    let r = b.clone();
    assert(r@ =~= b@);
    r
}

/// Entry `i` of `s` exists and has key `k`.
pub open spec fn key_at<V>(s: Seq<(Vec<u8>, V)>, k: Seq<u8>, i: int) -> bool {
    0 <= i < s.len() && s[i].0@ == k
}

/// No two entries of `s` have the same key.
pub open spec fn keys_unique<V>(s: Seq<(Vec<u8>, V)>) -> bool {
    forall|i: int, j: int|
        0 <= i < s.len() && 0 <= j < s.len() && i != j ==> s[i].0@ != s[j].0@
}

/// The map that a list of entries stands for.
pub open spec fn map_of<V>(s: Seq<(Vec<u8>, V)>) -> Map<Seq<u8>, V> {
    Map::new(
        |k: Seq<u8>| exists|i: int| key_at(s, k, i),
        |k: Seq<u8>| s[choose|i: int| key_at(s, k, i)].1,
    )
}

proof fn lemma_map_of_at<V>(s: Seq<(Vec<u8>, V)>, i: int)
    requires
        keys_unique(s),
        0 <= i < s.len(),
    ensures
        map_of(s).contains_key(s[i].0@),
        map_of(s)[s[i].0@] == s[i].1,
{
    let k = s[i].0@;
    assert(key_at(s, k, i));
    let j = choose|j: int| key_at(s, k, j);
    assert(key_at(s, k, j));
}

proof fn lemma_map_of_push<V>(s: Seq<(Vec<u8>, V)>, k: Vec<u8>, v: V)
    requires
        keys_unique(s),
        !map_of(s).contains_key(k@),
    ensures
        keys_unique(s.push((k, v))),
        map_of(s.push((k, v))) =~= map_of(s).insert(k@, v),
{
    let t = s.push((k, v));
    assert forall|i: int| 0 <= i < s.len() implies t[i].0@ != k@ by {
        if t[i].0@ == k@ {
            assert(key_at(s, k@, i));
        }
    }
    assert(keys_unique(t));
    assert forall|q: Seq<u8>| #[trigger] map_of(t).contains_key(q) == map_of(s).insert(
        k@,
        v,
    ).contains_key(q) by {
        if map_of(t).contains_key(q) {
            let i = choose|i: int| key_at(t, q, i);
            if i < s.len() {
                assert(key_at(s, q, i));
            }
        }
        if map_of(s).contains_key(q) {
            let i = choose|i: int| key_at(s, q, i);
            assert(key_at(t, q, i));
        }
        if q == k@ {
            assert(key_at(t, q, s.len() as int));
        }
    }
    assert forall|q: Seq<u8>| #[trigger] map_of(t).contains_key(q) implies map_of(t)[q]
        == map_of(s).insert(k@, v)[q] by {
        let i = choose|i: int| key_at(t, q, i);
        lemma_map_of_at(t, i);
        if i < s.len() {
            lemma_map_of_at(s, i);
        }
    }
}

proof fn lemma_map_of_remove<V>(s: Seq<(Vec<u8>, V)>, i: int)
    requires
        keys_unique(s),
        0 <= i < s.len(),
    ensures
        keys_unique(s.remove(i)),
        map_of(s.remove(i)) =~= map_of(s).remove(s[i].0@),
{
    let t = s.remove(i);
    let k = s[i].0@;
    assert forall|a: int, b: int|
        0 <= a < t.len() && 0 <= b < t.len() && a != b implies t[a].0@ != t[b].0@ by {
        let a2 = if a < i { a } else { a + 1 };
        let b2 = if b < i { b } else { b + 1 };
        assert(t[a] == s[a2]);
        assert(t[b] == s[b2]);
    }
    assert forall|q: Seq<u8>| #[trigger] map_of(t).contains_key(q) == map_of(s).remove(
        k,
    ).contains_key(q) by {
        if map_of(t).contains_key(q) {
            let a = choose|a: int| key_at(t, q, a);
            let a2 = if a < i { a } else { a + 1 };
            assert(t[a] == s[a2]);
            assert(key_at(s, q, a2));
        }
        if map_of(s).contains_key(q) && q != k {
            let a = choose|a: int| key_at(s, q, a);
            let a2 = if a < i { a } else { a - 1 };
            assert(t[a2] == s[a]);
            assert(key_at(t, q, a2));
        }
    }
    assert forall|q: Seq<u8>| #[trigger] map_of(t).contains_key(q) implies map_of(t)[q]
        == map_of(s).remove(k)[q] by {
        let a = choose|a: int| key_at(t, q, a);
        let a2 = if a < i { a } else { a + 1 };
        assert(t[a] == s[a2]);
        lemma_map_of_at(t, a);
        lemma_map_of_at(s, a2);
    }
}

/// A map from byte strings to values of type `V`. vstd models the hashing
/// of integer keys only, so a byte-string key is looked up by comparing
/// bytes, over a list whose keys are kept unique.
pub struct ByteMap<V> {
    entries: Vec<(Vec<u8>, V)>,
}

impl<V> ByteMap<V> {
    /// The map that this table holds.
    pub closed spec fn view(&self) -> Map<Seq<u8>, V> {
        map_of(self.entries@)
    }

    /// The entries' keys are unique.
    pub closed spec fn wf(&self) -> bool {
        keys_unique(self.entries@)
    }

    pub fn new() -> (r: Self)
        ensures
            r.wf(),
            r.view() == Map::<Seq<u8>, V>::empty(),
    {
        let r = ByteMap { entries: Vec::new() };
        assert(r.view() =~= Map::<Seq<u8>, V>::empty());
        r
    }

    fn find(&self, k: &[u8]) -> (r: Option<usize>)
        requires
            self.wf(),
        ensures
            match r {
                Some(i) => i < self.entries@.len() && self.entries@[i as int].0@ == k@,
                None => !self.view().contains_key(k@),
            },
    {
        let mut i: usize = 0;
        while i < self.entries.len()
            invariant
                0 <= i <= self.entries@.len(),
                forall|j: int| 0 <= j < i ==> self.entries@[j].0@ != k@,
            decreases self.entries@.len() - i,
        {
            if bytes_eq(self.entries[i].0.as_slice(), k) {
                return Some(i);
            }
            i = i + 1;
        }
        proof {
            if self.view().contains_key(k@) {
                let j = choose|j: int| key_at(self.entries@, k@, j);
                assert(key_at(self.entries@, k@, j));
            }
        }
        None
    }

    /// Whether the map has key `k`.
    pub fn contains_key(&self, k: &[u8]) -> (r: bool)
        requires
            self.wf(),
        ensures
            r == self.view().contains_key(k@),
    {
        match self.find(k) {
            Some(i) => {
                proof {
                    lemma_map_of_at(self.entries@, i as int);
                }
                true
            },
            None => false,
        }
    }

    /// The value under key `k`, if any.
    pub fn get(&self, k: &[u8]) -> (r: Option<&V>)
        requires
            self.wf(),
        ensures
            match r {
                Some(v) => self.view().contains_key(k@) && *v == self.view()[k@],
                None => !self.view().contains_key(k@),
            },
    {
        match self.find(k) {
            Some(i) => {
                proof {
                    lemma_map_of_at(self.entries@, i as int);
                }
                Some(&self.entries[i].1)
            },
            None => None,
        }
    }

    /// Takes the entry with key `k` out of the map.
    pub fn take(&mut self, k: &[u8]) -> (r: Option<(Vec<u8>, V)>)
        requires
            old(self).wf(),
        ensures
            final(self).wf(),
            final(self).view() == old(self).view().remove(k@),
            match r {
                Some((key, v)) => key@ == k@ && old(self).view().contains_key(k@) && v
                    == old(self).view()[k@],
                None => !old(self).view().contains_key(k@),
            },
    {
        match self.find(k) {
            Some(i) => {
                proof {
                    lemma_map_of_at(self.entries@, i as int);
                    lemma_map_of_remove(self.entries@, i as int);
                }
                Some(self.entries.remove(i))
            },
            None => {
                assert(self.view().remove(k@) =~= self.view());
                None
            },
        }
    }

    /// Puts `v` under key `k`, replacing any value there.
    pub fn insert(&mut self, k: Vec<u8>, v: V)
        requires
            old(self).wf(),
        ensures
            final(self).wf(),
            final(self).view() == old(self).view().insert(k@, v),
    {
        let _ = self.take(k.as_slice());
        proof {
            lemma_map_of_push(self.entries@, k, v);
        }
        self.entries.push((k, v));
        assert(self.view() =~= old(self).view().insert(k@, v));
    }

    /// Removes key `k` from the map, if it is there.
    pub fn remove(&mut self, k: &[u8])
        requires
            old(self).wf(),
        ensures
            final(self).wf(),
            final(self).view() == old(self).view().remove(k@),
    {
        let _ = self.take(k);
    }
}

} // verus!
