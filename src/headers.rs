//! An insertion-ordered header map with unique, case-sensitive names.
use vstd::prelude::*;

verus! {

/// A header list as plain values: (name, value) pairs in insertion order.
pub type HeaderSeq = Seq<(Seq<char>, Seq<char>)>;

/// No two entries share a name.
pub open spec fn keys_unique(es: HeaderSeq) -> bool {
    forall|i: int, j: int|
        0 <= i < es.len() && 0 <= j < es.len() && i != j ==> #[trigger] es[i].0 != #[trigger] es[j].0
}

/// Some entry has the name `k`.
pub open spec fn has_key(es: HeaderSeq, k: Seq<char>) -> bool {
    exists|i: int| 0 <= i < es.len() && #[trigger] es[i].0 == k
}

/// The position of the entry named `k`, where there is one.
pub open spec fn key_position(es: HeaderSeq, k: Seq<char>) -> int {
    choose|i: int| 0 <= i < es.len() && #[trigger] es[i].0 == k
}

/// The list after setting `k` to `v`: an existing entry keeps its place and
/// takes the new value (the last write wins); a new name goes at the end.
pub open spec fn with_entry(es: HeaderSeq, k: Seq<char>, v: Seq<char>) -> HeaderSeq {
    if has_key(es, k) {
        es.update(key_position(es, k), (k, v))
    } else {
        es.push((k, v))
    }
}

/// The value stored under `k`.
pub open spec fn lookup(es: HeaderSeq, k: Seq<char>) -> Option<Seq<char>> {
    if has_key(es, k) {
        Some(es[key_position(es, k)].1)
    } else {
        None
    }
}

/// Header names mapped to values; names are unique and compared exactly.
#[derive(Debug, Clone, PartialEq, Eq)]
pub struct Headers {
    entries: Vec<(String, String)>,
}

impl View for Headers {
    type V = HeaderSeq;

    closed spec fn view(&self) -> HeaderSeq {
        self.entries@.map_values(|p: (String, String)| (p.0@, p.1@))
    }
}

impl Headers {
    /// Well-formed: names are unique.
    pub open spec fn wf(&self) -> bool {
        keys_unique(self@)
    }

    /// An empty header map.
    pub fn new() -> (r: Headers)
        ensures
            r@ == Seq::<(Seq<char>, Seq<char>)>::empty(),
            r.wf(),
    {
        let r = Headers { entries: Vec::new() };
        assert(r@ =~= Seq::<(Seq<char>, Seq<char>)>::empty());
        r
    }

    /// The number of entries.
    pub fn len(&self) -> (r: usize)
        ensures
            r == self@.len(),
    {
        self.entries.len()
    }

    /// Whether there are no entries.
    pub fn is_empty(&self) -> (r: bool)
        ensures
            r == (self@.len() == 0),
    {
        self.entries.len() == 0
    }

    /// The name of the entry at position `i`.
    pub fn key_at(&self, i: usize) -> (r: &String)
        requires
            i < self@.len(),
        ensures
            r@ == self@[i as int].0,
    {
        &self.entries[i].0
    }

    /// The value of the entry at position `i`.
    pub fn value_at(&self, i: usize) -> (r: &String)
        requires
            i < self@.len(),
        ensures
            r@ == self@[i as int].1,
    {
        &self.entries[i].1
    }

    /// Finds the position of the entry named `key`.
    fn position_of(&self, key: &String) -> (r: Option<usize>)
        requires
            self.wf(),
        ensures
            r matches Some(i) ==> i < self@.len() && i == key_position(self@, key@),
            r is None <==> !has_key(self@, key@),
    {
        let mut i: usize = 0;
        while i < self.entries.len()
            invariant
                i <= self@.len(),
                self.wf(),
                self@.len() == self.entries@.len(),
                forall|j: int| 0 <= j < i ==> #[trigger] self@[j].0 != key@,
            decreases self.entries.len() - i,
        {
            if self.entries[i].0 == *key {
                assert(self@[i as int].0 == key@);
                proof {
                    let p = key_position(self@, key@);
                    assert(0 <= p < self@.len() && self@[p].0 == key@);
                    if p != i as int {
                        assert(self@[p].0 != self@[i as int].0);
                    }
                }
                return Some(i);
            }
            i = i + 1;
        }
        None
    }

    /// Sets `key` to `value`, replacing the value of an entry of that name.
    pub fn insert(&mut self, key: String, value: String)
        requires
            old(self).wf(),
        ensures
            final(self).wf(),
            final(self)@ == with_entry(old(self)@, key@, value@),
    {
        let ghost es = self@;
        let ghost k = key@;
        let ghost v = value@;
        match self.position_of(&key) {
            Some(i) => {
                self.entries.set(i, (key, value));
                assert(self@ =~= es.update(i as int, (k, v)));
            },
            None => {
                self.entries.push((key, value));
                assert(self@ =~= es.push((k, v)));
                assert forall|a: int, b: int|
                    0 <= a < self@.len() && 0 <= b < self@.len() && a != b implies
                    #[trigger] self@[a].0 != #[trigger] self@[b].0 by {
                    if a == es.len() {
                        assert(es[b].0 == self@[b].0);
                    } else if b == es.len() {
                        assert(es[a].0 == self@[a].0);
                    }
                }
            },
        }
    }

    /// The value stored under `key`.
    pub fn get(&self, key: &str) -> (r: Option<&String>)
        requires
            self.wf(),
        ensures
            r matches Some(v) ==> lookup(self@, key@) == Some(v@),
            r is None ==> lookup(self@, key@) is None,
    {
        let k = String::from_str(key);
        match self.position_of(&k) {
            Some(i) => Some(&self.entries[i].1),
            None => None,
        }
    }
}

} // verus!
