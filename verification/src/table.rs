//! A keyed table: the storage namespace of one kind of contract entry.
//!
//! Entries live in a vector of key/value pairs with pairwise distinct keys;
//! the table's view is the finite map from key views to values.
use vstd::prelude::*;

verus! {

/// A value that can be copied out of a table with nothing lost.
pub trait Replica: Sized {
    fn replica(&self) -> (r: Self)
        ensures
            r == *self,
    ;
}

/// A storage key: it has a view, and two keys are the same entry exactly when
/// their views agree.
pub trait TableKey: View + Replica {
    fn same_key(&self, other: &Self) -> (r: bool)
        ensures
            r == (self@ == other@),
    ;
}

impl Replica for String {
    fn replica(&self) -> (r: Self) {
        self.clone()
    }
}

impl Replica for u64 {
    fn replica(&self) -> (r: Self) {
        *self
    }
}

impl Replica for bool {
    fn replica(&self) -> (r: Self) {
        *self
    }
}

impl Replica for [u8; 32] {
    fn replica(&self) -> (r: Self) {
        *self
    }
}

impl Replica for (String, String) {
    fn replica(&self) -> (r: Self) {
        (self.0.clone(), self.1.clone())
    }
}

impl Replica for (String, u32) {
    fn replica(&self) -> (r: Self) {
        (self.0.clone(), self.1)
    }
}

impl TableKey for String {
    fn same_key(&self, other: &Self) -> (r: bool) {
        *self == *other
    }
}

impl TableKey for (String, String) {
    fn same_key(&self, other: &Self) -> (r: bool) {
        self.0 == other.0 && self.1 == other.1
    }
}

impl TableKey for (String, u32) {
    fn same_key(&self, other: &Self) -> (r: bool) {
        self.0 == other.0 && self.1 == other.1
    }
}

impl TableKey for [u8; 32] {
    fn same_key(&self, other: &Self) -> (r: bool) {
        let mut i: usize = 0;
        while i < 32
            invariant
                i <= 32,
                self@.len() == 32,
                other@.len() == 32,
                forall|j: int| 0 <= j < i ==> self@[j] == other@[j],
            decreases 32 - i,
        {
            if self[i] != other[i] {
                assert(self@[i as int] != other@[i as int]);
                return false;
            }
            i = i + 1;
        }
        assert(self@ =~= other@);
        true
    }
}

/// The view of an optional account identifier.
pub open spec fn account_view(a: Option<String>) -> Option<Seq<char>> {
    match a {
        Some(s) => Some(s@),
        None => None,
    }
}

/// Key/value pairs with distinct keys, and the map they stand for.
pub struct Table<K: TableKey, V> {
    entries: Vec<(K, V)>,
    contents: Ghost<Map<K::V, V>>,
}

impl<K: TableKey, V> View for Table<K, V> {
    type V = Map<K::V, V>;

    closed spec fn view(&self) -> Map<K::V, V> {
        self.contents@
    }
}

/// The key view of the pair at position `i`.
pub open spec fn key_at<K: TableKey, V>(e: Seq<(K, V)>, i: int) -> K::V {
    e[i].0@
}

/// Keys are distinct and the pairs are exactly the entries of the map.
pub open spec fn entries_match<K: TableKey, V>(e: Seq<(K, V)>, m: Map<K::V, V>) -> bool {
    &&& forall|i: int, j: int|
        0 <= i < j < e.len() ==> #[trigger] key_at(e, i) != #[trigger] key_at(e, j)
    &&& forall|i: int|
        0 <= i < e.len() ==> {
            &&& m.contains_key(#[trigger] key_at(e, i))
            &&& m[key_at(e, i)] == e[i].1
        }
    &&& forall|k: K::V|
        #[trigger] m.contains_key(k) ==> exists|i: int| 0 <= i < e.len() && #[trigger] key_at(e, i) == k
}

impl<K: TableKey, V> Table<K, V> {
    /// Keys are distinct and the pairs are exactly the entries of the map.
    pub closed spec fn wf(&self) -> bool {
        entries_match(self.entries@, self.contents@)
    }

    /// An empty table.
    pub fn new() -> (t: Self)
        ensures
            t.wf(),
            t@ == Map::<K::V, V>::empty(),
    {
        Table { entries: Vec::new(), contents: Ghost(Map::empty()) }
    }

    /// The position of the entry under `k`, if there is one.
    fn position(&self, k: &K) -> (r: Option<usize>)
        requires
            self.wf(),
        ensures
            match r {
                Some(i) => i < self.entries@.len() && key_at(self.entries@, i as int) == k@,
                None => !self@.contains_key(k@),
            },
    {
        let mut i: usize = 0;
        while i < self.entries.len()
            invariant
                self.wf(),
                i <= self.entries@.len(),
                forall|j: int| 0 <= j < i ==> #[trigger] key_at(self.entries@, j) != k@,
            decreases self.entries@.len() - i,
        {
            if self.entries[i].0.same_key(k) {
                return Some(i);
            }
            i = i + 1;
        }
        proof {
            if self@.contains_key(k@) {
                let j = choose|j: int| 0 <= j < self.entries@.len() && #[trigger] key_at(self.entries@, j) == k@;
                assert(key_at(self.entries@, j) != k@);
            }
        }
        None
    }

    /// The value stored under `k`.
    pub fn get(&self, k: &K) -> (r: Option<&V>)
        requires
            self.wf(),
        ensures
            match r {
                Some(v) => self@.contains_key(k@) && *v == self@[k@],
                None => !self@.contains_key(k@),
            },
    {
        match self.position(k) {
            Some(i) => {
                assert(self.contents@.contains_key(key_at(self.entries@, i as int)));
                Some(&self.entries[i].1)
            },
            None => None,
        }
    }

    /// Whether an entry is stored under `k`.
    pub fn contains_key(&self, k: &K) -> (r: bool)
        requires
            self.wf(),
        ensures
            r == self@.contains_key(k@),
    {
        match self.position(k) {
            Some(i) => {
                assert(self.contents@.contains_key(key_at(self.entries@, i as int)));
                true
            },
            None => false,
        }
    }

    /// Stores `v` under `k`, replacing any earlier value.
    pub fn insert(&mut self, k: K, v: V)
        requires
            old(self).wf(),
        ensures
            final(self).wf(),
            final(self)@ == old(self)@.insert(k@, v),
    {
        let ghost old_map = self.contents@;
        let ghost old_e = self.entries@;
        let ghost kv = k@;
        match self.position(&k) {
            Some(i) => {
                self.entries.set(i, (k, v));
                self.contents = Ghost(old_map.insert(kv, v));
                let ghost e = self.entries@;
                assert forall|j: int| 0 <= j < e.len() implies key_at(e, j) == key_at(old_e, j) by {}
                assert forall|c: K::V| #[trigger] self.contents@.contains_key(c) implies exists|j: int|
                    0 <= j < e.len() && #[trigger] key_at(e, j) == c by {
                    if c == kv {
                        assert(key_at(e, i as int) == c);
                    } else {
                        assert(old_map.contains_key(c));
                        let j = choose|j: int| 0 <= j < old_e.len() && #[trigger] key_at(old_e, j) == c;
                        assert(key_at(e, j) == c);
                    }
                }
            },
            None => {
                let ghost n = old_e.len();
                self.entries.push((k, v));
                self.contents = Ghost(old_map.insert(kv, v));
                let ghost e = self.entries@;
                assert forall|j: int| 0 <= j < n implies key_at(e, j) == key_at(old_e, j) by {}
                assert(key_at(e, n as int) == kv);
                assert forall|c: K::V| #[trigger] self.contents@.contains_key(c) implies exists|j: int|
                    0 <= j < e.len() && #[trigger] key_at(e, j) == c by {
                    if c == kv {
                        assert(key_at(e, n as int) == c);
                    } else {
                        assert(old_map.contains_key(c));
                        let j = choose|j: int| 0 <= j < n && #[trigger] key_at(old_e, j) == c;
                        assert(key_at(e, j) == c);
                    }
                }
            },
        }
    }
}

impl<K: TableKey, V: Replica> Table<K, V> {
    /// A table with the same entries.
    pub fn replica(&self) -> (r: Self)
        requires
            self.wf(),
        ensures
            r.wf(),
            r@ == self@,
    {
        let mut entries: Vec<(K, V)> = Vec::new();
        let mut i: usize = 0;
        while i < self.entries.len()
            invariant
                self.wf(),
                i <= self.entries@.len(),
                entries@.len() == i,
                forall|j: int| 0 <= j < i ==> #[trigger] entries@[j] == self.entries@[j],
            decreases self.entries@.len() - i,
        {
            let pair = &self.entries[i];
            entries.push((pair.0.replica(), pair.1.replica()));
            i = i + 1;
        }
        assert(entries@ =~= self.entries@);
        Table { entries, contents: Ghost(self.contents@) }
    }
}

} // verus!
