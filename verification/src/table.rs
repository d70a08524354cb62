//! Tables in which a value is found by its key.

use vstd::prelude::*;

use crate::name::{self, StreamName};

verus! {

/// What values can be found by: two keys are the same when their views are.
pub trait Key: View + Sized {
    /// Whether two keys are the same.
    fn same(&self, other: &Self) -> (same: bool)
        ensures
            same == (self@ == other@),
    ;
}

impl Key for StreamName {
    fn same(&self, other: &Self) -> (same: bool) {
        name::same_bytes(self.as_bytes(), other.as_bytes())
    }
}

impl Key for u32 {
    fn same(&self, other: &Self) -> (same: bool) {
        *self == *other
    }
}

/// Values found by their keys, no key twice.
#[derive(Debug)]
pub struct Table<K, V> {
    entries: Vec<(K, V)>,
}

/// Values found by the name of a stream.
pub type NameTable<V> = Table<StreamName, V>;

/// Whether the entry at `i` is the one for `key`.
pub open spec fn at<K: Key, V>(entries: Seq<(K, V)>, key: K::V, i: int) -> bool {
    0 <= i < entries.len() && entries[i].0@ == key
}

/// Whether there is an entry for `key`.
pub open spec fn holds<K: Key, V>(entries: Seq<(K, V)>, key: K::V) -> bool {
    exists|i: int| at(entries, key, i)
}

impl<K: Key, V> View for Table<K, V> {
    type V = Map<K::V, V>;

    closed spec fn view(&self) -> Map<K::V, V> {
        Map::new(
            |key: K::V| holds(self.entries@, key),
            |key: K::V| self.entries@[choose|i: int| at(self.entries@, key, i)].1,
        )
    }
}

impl<K: Key, V> Table<K, V> {
    /// Whether no key occurs twice.
    pub closed spec fn wf(&self) -> bool {
        forall|i: int, j: int|
            0 <= i < j < self.entries@.len() ==> (#[trigger] self.entries@[i]).0@
                != (#[trigger] self.entries@[j]).0@
    }

    /// The entries, in the order in which they are kept.
    pub closed spec fn entries(&self) -> Seq<(K, V)> {
        self.entries@
    }

    /// The entries hold each key of the table, with its value, and none twice.
    pub proof fn entries_make_the_table(&self)
        requires
            self.wf(),
        ensures
            forall|i: int|
                #![trigger self.entries()[i]]
                0 <= i < self.entries().len() ==> self@.dom().contains(self.entries()[i].0@)
                    && self@[self.entries()[i].0@] == self.entries()[i].1,
            forall|key: K::V| #[trigger]
                self@.dom().contains(key) ==> holds(self.entries(), key),
            forall|i: int, j: int|
                0 <= i < j < self.entries().len() ==> (#[trigger] self.entries()[i]).0@
                    != (#[trigger] self.entries()[j]).0@,
    {
        assert forall|i: int| 0 <= i < self.entries().len() implies self@.dom().contains(
            (#[trigger] self.entries()[i]).0@,
        ) && self@[self.entries()[i].0@] == self.entries()[i].1 by {
            assert(at(self.entries@, self.entries@[i].0@, i));
            self.value_at(self.entries@[i].0@, i);
        }
    }

    /// The number of entries.
    pub fn len(&self) -> (len: usize)
        ensures
            len == self.entries().len(),
    {
        self.entries.len()
    }

    /// The entry at `i`.
    pub fn entry(&self, i: usize) -> (entry: (&K, &V))
        requires
            i < self.entries().len(),
        ensures
            *entry.0 == self.entries()[i as int].0,
            *entry.1 == self.entries()[i as int].1,
    {
        let entry = &self.entries[i];
        (&entry.0, &entry.1)
    }

    proof fn value_at(&self, key: K::V, i: int)
        requires
            self.wf(),
            at(self.entries@, key, i),
        ensures
            self@.dom().contains(key),
            self@[key] == self.entries@[i].1,
    {
        assert(holds(self.entries@, key));
        let j = choose|j: int| at(self.entries@, key, j);
        assert(at(self.entries@, key, j));
        assert(i == j);
    }

    /// A table without entries.
    pub fn new() -> (table: Self)
        ensures
            table.wf(),
            table@ == Map::<K::V, V>::empty(),
    {
        let table = Table { entries: Vec::new() };
        assert(table@ =~= Map::<K::V, V>::empty());
        table
    }

    fn position(&self, key: &K) -> (found: Option<usize>)
        ensures
            match found {
                Some(i) => at(self.entries@, key@, i as int),
                None => !holds(self.entries@, key@),
            },
    {
        let mut i: usize = 0;
        while i < self.entries.len()
            invariant
                i <= self.entries@.len(),
                forall|j: int| 0 <= j < i ==> !at(self.entries@, key@, j),
            decreases self.entries@.len() - i,
        {
            if self.entries[i].0.same(key) {
                assert(at(self.entries@, key@, i as int));
                return Some(i);
            }
            i = i + 1;
        }
        None
    }

    /// The value for `key`, if there is one.
    pub fn get(&self, key: &K) -> (value: Option<&V>)
        requires
            self.wf(),
        ensures
            match value {
                Some(v) => self@.dom().contains(key@) && *v == self@[key@],
                None => !self@.dom().contains(key@),
            },
    {
        match self.position(key) {
            Some(i) => {
                proof {
                    self.value_at(key@, i as int);
                }
                Some(&self.entries[i].1)
            },
            None => None,
        }
    }

    /// Takes the value for `key` out of the table, if there is one.
    pub fn remove(&mut self, key: &K) -> (value: Option<V>)
        requires
            old(self).wf(),
        ensures
            final(self).wf(),
            final(self)@ == old(self)@.remove(key@),
            match value {
                Some(v) => old(self)@.dom().contains(key@) && v == old(self)@[key@],
                None => !old(self)@.dom().contains(key@),
            },
    {
        match self.position(key) {
            Some(i) => {
                proof {
                    self.value_at(key@, i as int);
                }
                let ghost before = *self;
                let entry = self.entries.remove(i);
                proof {
                    let kept = self.entries@;
                    assert forall|j: int| 0 <= j < kept.len() implies kept[j]
                        == before.entries@[if j < i { j } else { j + 1 }] by {}
                    assert forall|other: K::V| #[trigger]
                        self@.dom().contains(other) <==> before@.remove(key@).dom().contains(
                        other,
                    ) by {
                        if holds(kept, other) {
                            let j = choose|j: int| at(kept, other, j);
                            let k = if j < i { j } else { j + 1 };
                            assert(at(before.entries@, other, k));
                            assert(before.entries@[i as int].0@ != other);
                        }
                        if holds(before.entries@, other) && other != key@ {
                            let k = choose|k: int| at(before.entries@, other, k);
                            assert(at(kept, other, if k < i { k } else { k - 1 }));
                        }
                    }
                    assert forall|other: K::V| #[trigger]
                        self@.dom().contains(other) implies self@[other] == before@[other] by {
                        let j = choose|j: int| at(kept, other, j);
                        assert(at(kept, other, j));
                        self.value_at(other, j);
                        before.value_at(other, if j < i { j } else { j + 1 });
                    }
                    assert(self@ =~= before@.remove(key@));
                }
                Some(entry.1)
            },
            None => {
                assert(self@ =~= self@.remove(key@));
                None
            },
        }
    }

    /// Puts `value` under `key`, in place of what was there.
    pub fn insert(&mut self, key: K, value: V)
        requires
            old(self).wf(),
        ensures
            final(self).wf(),
            final(self)@ == old(self)@.insert(key@, value),
    {
        self.remove(&key);
        let ghost before = *self;
        assert(!holds(before.entries@, key@)) by {
            assert(!before@.dom().contains(key@));
        }
        self.entries.push((key, value));
        proof {
            let now = self.entries@;
            assert forall|j: int| 0 <= j < before.entries@.len() implies now[j].0@ != key@ by {
                if now[j].0@ == key@ {
                    assert(at(before.entries@, key@, j));
                }
            }
            assert forall|other: K::V| #[trigger]
                self@.dom().contains(other) <==> before@.insert(key@, value).dom().contains(
                other,
            ) by {
                if holds(now, other) && other != key@ {
                    let j = choose|j: int| at(now, other, j);
                    assert(at(before.entries@, other, j));
                }
                if holds(before.entries@, other) {
                    let j = choose|j: int| at(before.entries@, other, j);
                    assert(at(now, other, j));
                }
                assert(at(now, key@, now.len() - 1));
            }
            assert forall|other: K::V| #[trigger]
                self@.dom().contains(other) implies self@[other] == before@.insert(
                key@,
                value,
            )[other] by {
                let j = choose|j: int| at(now, other, j);
                assert(at(now, other, j));
                self.value_at(other, j);
                if other != key@ {
                    before.value_at(other, j);
                }
            }
            assert(self@ =~= before@.insert(key@, value));
            assert(before@.insert(key@, value) =~= old(self)@.insert(key@, value));
        }
    }
}

/// What was last put under a key is what is found under it.
pub proof fn what_is_put_is_found<K: Key, V>(
    table: &mut Table<K, V>,
    key: K,
    value: V,
    other: K::V,
)
    requires
        call_ensures(Table::<K, V>::insert, (table, key, value), ()),
    ensures
        final(table)@.dom().contains(key@),
        final(table)@[key@] == value,
        other != key@ ==> final(table)@.dom().contains(other) == old(table)@.dom().contains(other),
        other != key@ ==> final(table)@[other] == old(table)@[other],
{
}

/// What is taken from under a key is no longer there, and all else is.
pub proof fn what_is_taken_is_gone<K: Key, V>(
    table: &mut Table<K, V>,
    key: &K,
    value: Option<V>,
    other: K::V,
)
    requires
        call_ensures(Table::<K, V>::remove, (table, key), value),
    ensures
        !final(table)@.dom().contains(key@),
        value is Some <==> old(table)@.dom().contains(key@),
        value matches Some(value) ==> value == old(table)@[key@],
        other != key@ ==> final(table)@.dom().contains(other) == old(table)@.dom().contains(other),
        other != key@ && old(table)@.dom().contains(other) ==> final(table)@[other]
            == old(table)@[other],
{
}

/// What is found under a key is what stands there.
pub proof fn what_is_found_is_there<K: Key, V>(table: &Table<K, V>, key: &K, value: Option<&V>)
    requires
        call_ensures(Table::<K, V>::get, (table, key), value),
    ensures
        value is Some <==> table@.dom().contains(key@),
        value matches Some(value) ==> *value == table@[key@],
{
}

} // verus!
