//! A table from names to values that keeps the order of insertion.
//!
//! Entry `i` is the `i`-th name that was inserted, so an index into the table
//! can serve as a handle into a dense array that is kept beside it.

use vstd::prelude::*;

verus! {

/// The position of `name` among `keys`, if it is there.
pub open spec fn spec_find(keys: Seq<Seq<char>>, name: Seq<char>) -> Option<int> {
    if exists|i: int| 0 <= i < keys.len() && keys[i] == name {
        Some(choose|i: int| 0 <= i < keys.len() && keys[i] == name)
    } else {
        None
    }
}

/// No name occurs twice among `keys`.
pub open spec fn distinct(keys: Seq<Seq<char>>) -> bool {
    forall|i: int, j: int| 0 <= i < j < keys.len() ==> keys[i] != keys[j]
}

/// Names with one value each, in the order in which the names came.
#[derive(Debug)]
pub struct NameTable<V> {
    entries: Vec<(String, V)>,
}

impl<V> NameTable<V> {
    #[verifier::type_invariant]
    spec fn well_formed(self) -> bool {
        distinct(Seq::new(self.entries@.len(), |i: int| self.entries@[i].0@))
    }

    /// The names of the table, in the order of their insertion.
    pub closed spec fn keys(&self) -> Seq<Seq<char>> {
        Seq::new(self.entries@.len(), |i: int| self.entries@[i].0@)
    }

    /// The values of the table; `values()[i]` belongs to `keys()[i]`.
    pub closed spec fn values(&self) -> Seq<V> {
        Seq::new(self.entries@.len(), |i: int| self.entries@[i].1)
    }

    /// The value that `name` has, if it is in the table.
    pub open spec fn spec_get(&self, name: Seq<char>) -> Option<V> {
        match spec_find(self.keys(), name) {
            Some(i) => Some(self.values()[i]),
            None => None,
        }
    }

    /// Every key has one value: there are as many values as keys.
    pub proof fn lemma_shape(&self)
        ensures
            self.keys().len() == self.values().len(),
    {
    }

    pub fn new() -> (table: Self)
        ensures
            table.keys() == Seq::<Seq<char>>::empty(),
            table.values() == Seq::<V>::empty(),
    {
        let table = NameTable { entries: Vec::new() };
        assert(table.keys() =~= Seq::<Seq<char>>::empty());
        assert(table.values() =~= Seq::<V>::empty());
        table
    }

    /// The number of names in the table. No name is in the table twice.
    pub fn len(&self) -> (n: usize)
        ensures
            n == self.keys().len(),
            n == self.values().len(),
            distinct(self.keys()),
    {
        proof {
            use_type_invariant(self);
        }
        self.entries.len()
    }

    /// The position of `name` in the table.
    pub fn index_of(&self, name: &str) -> (found: Option<usize>)
        ensures
            distinct(self.keys()),
            match found {
                Some(i) => spec_find(self.keys(), name@) == Some(i as int) && i < self.keys().len()
                    && self.keys()[i as int] == name@,
                None => spec_find(self.keys(), name@) == None::<int>,
            },
    {
        proof {
            use_type_invariant(self);
        }
        let key = name.to_owned();
        let mut i: usize = 0;
        while i < self.entries.len()
            invariant
                i <= self.entries@.len(),
                key@ == name@,
                distinct(self.keys()),
                forall|k: int| 0 <= k < i ==> self.keys()[k] != name@,
            decreases self.entries@.len() - i,
        {
            if self.entries[i].0 == key {
                assert(self.keys()[i as int] == name@);
                return Some(i);
            }
            i = i + 1;
        }
        None
    }

    /// The value that `name` has.
    pub fn get(&self, name: &str) -> (value: Option<&V>)
        ensures
            match value {
                Some(v) => self.spec_get(name@) == Some(*v),
                None => self.spec_get(name@) == None::<V>,
            },
    {
        match self.index_of(name) {
            Some(i) => Some(&self.entries[i].1),
            None => None,
        }
    }

    /// The value at position `i`.
    pub fn value_at(&self, i: usize) -> (value: &V)
        requires
            i < self.values().len(),
        ensures
            *value == self.values()[i as int],
    {
        &self.entries[i].1
    }

    /// Gives `name` the value `value`: a name that is new goes to the end of
    /// the table, a name that is there keeps its place and changes its value.
    pub fn insert(&mut self, name: String, value: V)
        ensures
            match spec_find(old(self).keys(), name@) {
                Some(i) => final(self).keys() == old(self).keys() && final(self).values() == old(
                    self,
                ).values().update(i, value),
                None => final(self).keys() == old(self).keys().push(name@) && final(self).values()
                    == old(self).values().push(value),
            },
            final(self).spec_get(name@) == Some(value),
            distinct(final(self).keys()),
    {
        proof {
            use_type_invariant(&*self);
        }
        let found = self.index_of(name.as_str());
        let ghost before = *self;
        let mut entries: Vec<(String, V)> = Vec::new();
        core::mem::swap(&mut entries, &mut self.entries);
        match found {
            Some(i) => {
                entries.set(i, (name, value));
                assert(Seq::new(entries@.len(), |k: int| entries@[k].0@) =~= before.keys());
                self.entries = entries;
                assert(self.keys() =~= before.keys());
                assert(self.values() =~= before.values().update(i as int, value));
                assert(self.keys()[i as int] == name@);
            },
            None => {
                entries.push((name, value));
                assert(Seq::new(entries@.len(), |k: int| entries@[k].0@) =~= before.keys().push(
                    name@,
                ));
                self.entries = entries;
                assert(self.keys() =~= before.keys().push(name@));
                assert(self.values() =~= before.values().push(value));
                assert(self.keys()[before.keys().len() as int] == name@);
            },
        }
    }
}

} // verus!
