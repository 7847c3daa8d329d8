//! A map kept as a list of entries with distinct keys.

use vstd::prelude::*;
use crate::address::Address;
use crate::text::Text;

verus! {

/// What can be a key of a [`Table`]: a value that can be compared with others
/// by its view.
pub trait Key: View + Sized {
    /// Whether two keys are the same.
    fn same(&self, other: &Self) -> (r: bool)
        ensures
            r == (self@ == other@),
    ;
}

impl Key for u64 {
    fn same(&self, other: &u64) -> (r: bool) {
        *self == *other
    }
}

impl Key for Address {
    fn same(&self, other: &Address) -> (r: bool) {
        *self == *other
    }
}

impl Key for Text {
    fn same(&self, other: &Text) -> (r: bool) {
        self.equals(other)
    }
}

/// A map from keys to values. Its view maps the views of the keys to the views
/// of the values.
pub struct Table<K: Key, V: View> {
    entries: Vec<(K, V)>,
}

/// Whether no two entries have the same key.
spec fn distinct<K: Key, V: View>(entries: Seq<(K, V)>) -> bool {
    forall|i: int, j: int|
        0 <= i < j < entries.len() ==> (#[trigger] entries[i]).0@ != (#[trigger] entries[j]).0@
}

/// Whether the entry at `i` is the one for `k`.
spec fn at<K: Key, V: View>(entries: Seq<(K, V)>, i: int, k: K::V) -> bool {
    0 <= i < entries.len() && entries[i].0@ == k
}

/// The map that a list of entries stands for.
spec fn as_map<K: Key, V: View>(entries: Seq<(K, V)>) -> Map<K::V, V::V> {
    Map::new(
        |k: K::V| exists|i: int| at(entries, i, k),
        |k: K::V| entries[choose|i: int| at(entries, i, k)].1@,
    )
}

impl<K: Key, V: View> View for Table<K, V> {
    type V = Map<K::V, V::V>;

    closed spec fn view(&self) -> Map<K::V, V::V> {
        as_map(self.entries@)
    }
}

proof fn lemma_entry<K: Key, V: View>(entries: Seq<(K, V)>, i: int)
    requires
        distinct(entries),
        0 <= i < entries.len(),
    ensures
        as_map(entries).dom().contains(entries[i].0@),
        as_map(entries)[entries[i].0@] == entries[i].1@,
{
    let k = entries[i].0@;
    assert(at(entries, i, k));
    let j = choose|j: int| at(entries, j, k);
    assert(at(entries, j, k));
    assert(i == j);
}

impl<K: Key, V: View> Table<K, V> {
    #[verifier::type_invariant]
    spec fn well_formed(self) -> bool {
        distinct(self.entries@)
    }

    /// The empty map.
    pub fn new() -> (t: Table<K, V>)
        ensures
            t@ == Map::<K::V, V::V>::empty(),
    {
        let t = Table { entries: Vec::new() };
        assert(t@ =~= Map::<K::V, V::V>::empty());
        t
    }

    fn find(&self, key: &K) -> (r: Option<usize>)
        ensures
            match r {
                Some(i) => at(self.entries@, i as int, key@),
                None => forall|i: int| !at(self.entries@, i, key@),
            },
    {
        let mut i: usize = 0;
        while i < self.entries.len()
            invariant
                i <= self.entries@.len(),
                forall|j: int| 0 <= j < i ==> !at(self.entries@, j, key@),
            decreases self.entries@.len() - i,
        {
            if self.entries[i].0.same(key) {
                return Some(i);
            }
            i = i + 1;
        }
        None
    }

    /// Whether the map has a value for `key`.
    pub fn contains(&self, key: &K) -> (r: bool)
        ensures
            r == self@.dom().contains(key@),
    {
        match self.find(key) {
            Some(i) => {
                assert(at(self.entries@, i as int, key@));
                true
            },
            None => false,
        }
    }

    /// The value for `key`.
    pub fn get(&self, key: &K) -> (r: Option<&V>)
        ensures
            match r {
                Some(v) => self@.dom().contains(key@) && v@ == self@[key@],
                None => !self@.dom().contains(key@),
            },
    {
        proof {
            use_type_invariant(self);
        }
        match self.find(key) {
            Some(i) => {
                proof {
                    lemma_entry(self.entries@, i as int);
                }
                Some(&self.entries[i].1)
            },
            None => None,
        }
    }

    /// Gives `key` the value `value`.
    pub fn insert(&mut self, key: K, value: V)
        ensures
            final(self)@ == old(self)@.insert(key@, value@),
    {
        proof {
            use_type_invariant(&*self);
        }
        let slot = self.find(&key);
        let mut entries: Vec<(K, V)> = Vec::new();
        std::mem::swap(&mut entries, &mut self.entries);
        let ghost before = entries@;
        match slot {
            Some(i) => {
                entries.set(i, (key, value));
                assert(distinct(entries@)) by {
                    assert forall|a: int, b: int| 0 <= a < b < entries@.len() implies (
                    #[trigger] entries@[a]).0@ != (#[trigger] entries@[b]).0@ by {
                        assert(before[a].0@ != before[b].0@);
                    }
                }
                proof {
                    Self::lemma_insert(before, entries@, i as int);
                }
            },
            None => {
                assert forall|j: int| 0 <= j < before.len() implies (#[trigger] before[j]).0@
                    != key@ by {
                    assert(!at(before, j, key@));
                }
                entries.push((key, value));
                proof {
                    Self::lemma_insert(before, entries@, before.len() as int);
                }
            },
        }
        self.entries = entries;
    }

    proof fn lemma_insert(before: Seq<(K, V)>, after: Seq<(K, V)>, i: int)
        requires
            distinct(before),
            distinct(after),
            0 <= i < after.len(),
            i < before.len() ==> before[i].0@ == after[i].0@,
            i <= before.len() <= after.len() <= before.len() + 1,
            after.len() > before.len() ==> i == before.len(),
            forall|j: int| 0 <= j < before.len() && j != i ==> before[j] == after[j],
        ensures
            as_map(after) == as_map(before).insert(after[i].0@, after[i].1@),
    {
        let k = after[i].0@;
        let want = as_map(before).insert(k, after[i].1@);
        assert forall|x: K::V| #[trigger] as_map(after).dom().contains(x) <==> want.dom().contains(
            x,
        ) by {
            if as_map(after).dom().contains(x) {
                let j = choose|j: int| at(after, j, x);
                if j != i {
                    assert(at(before, j, x));
                }
            }
            if want.dom().contains(x) {
                if x == k {
                    assert(at(after, i, x));
                } else {
                    let j = choose|j: int| at(before, j, x);
                    assert(at(after, j, x));
                }
            }
        }
        assert forall|x: K::V| #[trigger] as_map(after).dom().contains(x) implies as_map(after)[x]
            == want[x] by {
            let j = choose|j: int| at(after, j, x);
            lemma_entry(after, j);
            if j != i {
                assert(x != k);
                lemma_entry(before, j);
            }
        }
        assert(as_map(after) =~= want);
    }

    /// Takes the value of `key` away and gives it back.
    pub fn remove(&mut self, key: &K) -> (r: Option<V>)
        ensures
            final(self)@ == old(self)@.remove(key@),
            match r {
                Some(v) => old(self)@.dom().contains(key@) && v@ == old(self)@[key@],
                None => !old(self)@.dom().contains(key@),
            },
    {
        proof {
            use_type_invariant(&*self);
        }
        let slot = self.find(key);
        let mut entries: Vec<(K, V)> = Vec::new();
        std::mem::swap(&mut entries, &mut self.entries);
        let ghost before = entries@;
        let taken = match slot {
            Some(i) => {
                let (_, value) = entries.swap_remove(i);
                proof {
                    lemma_entry(before, i as int);
                    Self::lemma_remove(before, entries@, i as int);
                }
                Some(value)
            },
            None => {
                proof {
                    assert(as_map(before).remove(key@) =~= as_map(before));
                }
                None
            },
        };
        self.entries = entries;
        taken
    }

    proof fn lemma_remove(before: Seq<(K, V)>, after: Seq<(K, V)>, i: int)
        requires
            distinct(before),
            0 <= i < before.len(),
            after == before.update(i, before.last()).drop_last(),
        ensures
            distinct(after),
            as_map(after) == as_map(before).remove(before[i].0@),
    {
        let k = before[i].0@;
        let want = as_map(before).remove(k);
        assert forall|a: int, b: int| 0 <= a < b < after.len() implies (#[trigger] after[a]).0@ != (
        #[trigger] after[b]).0@ by {
            let a0 = if a == i { before.len() - 1 } else { a };
            let b0 = if b == i { before.len() - 1 } else { b };
            assert(before[a0].0@ != before[b0].0@);
        }
        assert forall|x: K::V| #[trigger] as_map(after).dom().contains(x) <==> want.dom().contains(
            x,
        ) by {
            if as_map(after).dom().contains(x) {
                let j = choose|j: int| at(after, j, x);
                let j0 = if j == i { before.len() - 1 } else { j };
                assert(at(before, j0, x));
                assert(before[j0].0@ != before[i].0@);
            }
            if want.dom().contains(x) {
                let j = choose|j: int| at(before, j, x);
                let j0 = if j == before.len() - 1 { i } else { j };
                assert(at(after, j0, x));
            }
        }
        assert forall|x: K::V| #[trigger] as_map(after).dom().contains(x) implies as_map(after)[x]
            == want[x] by {
            let j = choose|j: int| at(after, j, x);
            let j0 = if j == i { before.len() - 1 } else { j };
            lemma_entry(after, j);
            lemma_entry(before, j0);
        }
        assert(as_map(after) =~= want);
    }
}

} // verus!
