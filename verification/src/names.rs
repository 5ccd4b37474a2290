//! A map from names to values that keeps the order in which names came in.

use crate::text::same_text;
use vstd::prelude::*;

verus! {

/// A finite map keyed by text. No name occurs twice; entries stay in the
/// order of their first insertion, so that walking the map is deterministic.
#[derive(Debug)]
pub struct NameMap<T> {
    names: Vec<String>,
    values: Vec<T>,
}

impl<T> NameMap<T> {
    /// The names, in insertion order.
    pub closed spec fn names(&self) -> Seq<Seq<char>> {
        Seq::new(self.names@.len(), |i: int| self.names@[i]@)
    }

    /// The values, each at the position of its name.
    pub closed spec fn values(&self) -> Seq<T> {
        self.values@
    }

    /// One value for each name, and no name twice.
    pub open spec fn wf(&self) -> bool {
        &&& self.names().len() == self.values().len()
        &&& self.names().no_duplicates()
    }

    /// The invariant of the type: every map is well formed.
    #[verifier::type_invariant]
    pub open spec fn inv(&self) -> bool {
        self.wf()
    }

    /// Whether `name` has an entry.
    pub open spec fn has(&self, name: Seq<char>) -> bool {
        self.names().contains(name)
    }

    /// The value stored under `name`; meaningful where `has(name)`.
    pub open spec fn value_of(&self, name: Seq<char>) -> T {
        self.values()[self.names().index_of(name)]
    }

    /// The map as a mathematical map.
    pub open spec fn view(&self) -> Map<Seq<char>, T> {
        Map::new(|name: Seq<char>| self.has(name), |name: Seq<char>| self.value_of(name))
    }

    /// An empty map.
    pub fn new() -> (map: Self)
        ensures
            map.names() == Seq::<Seq<char>>::empty(),
            map.values() == Seq::<T>::empty(),
            map.wf(),
    {
        let map = NameMap { names: Vec::new(), values: Vec::new() };
        assert(map.names() =~= Seq::<Seq<char>>::empty());
        map
    }

    /// The number of entries.
    pub fn len(&self) -> (n: usize)
        ensures
            n == self.names().len(),
            n == self.values().len(),
            self.wf(),
    {
        proof {
            use_type_invariant(self);
        }
        self.names.len()
    }

    /// Whether the map has no entry.
    pub fn is_empty(&self) -> (empty: bool)
        ensures
            empty == (self.names().len() == 0),
            self.wf(),
    {
        proof {
            use_type_invariant(self);
        }
        self.names.len() == 0
    }

    /// The name of the entry at position `i`.
    pub fn name_at(&self, i: usize) -> (name: &String)
        requires
            i < self.names().len(),
        ensures
            name@ == self.names()[i as int],
    {
        &self.names[i]
    }

    /// The value of the entry at position `i`.
    pub fn value_at(&self, i: usize) -> (value: &T)
        requires
            i < self.values().len(),
        ensures
            *value == self.values()[i as int],
    {
        &self.values[i]
    }

    /// The position of `name`, if it has an entry.
    pub fn position(&self, name: &str) -> (at: Option<usize>)
        ensures
            self.wf(),
            at matches Some(i) ==> i < self.names().len() && self.names()[i as int] == name@
                && self.names().index_of(name@) == i,
            at is Some <==> self.has(name@),
    {
        proof {
            use_type_invariant(self);
        }
        let mut i: usize = 0;
        while i < self.names.len()
            invariant
                i <= self.names@.len(),
                self.wf(),
                forall|j: int| 0 <= j < i ==> self.names()[j] != name@,
            decreases self.names@.len() - i,
        {
            if same_text(self.names[i].as_str(), name) {
                proof {
                    let k = self.names().index_of(name@);
                    assert(self.names()[i as int] == name@);
                    assert(self.names().contains(name@));
                    assert(self.names()[k] == name@);
                }
                return Some(i);
            }
            i += 1;
        }
        None
    }

    /// The value stored under `name`, if there is one.
    pub fn get(&self, name: &str) -> (value: Option<&T>)
        ensures
            value is Some <==> self.has(name@),
            value matches Some(v) ==> *v == self.value_of(name@),
    {
        proof {
            use_type_invariant(self);
        }
        match self.position(name) {
            Some(i) => Some(&self.values[i]),
            None => None,
        }
    }

    /// Stores `value` under `name`. A name that is new goes to the end; a name
    /// that has an entry keeps its place, and the value that it had is returned.
    pub fn insert(&mut self, name: String, value: T) -> (previous: Option<T>)
        ensures
            final(self).wf(),
            previous is Some <==> old(self).has(name@),
            previous matches Some(v) ==> v == old(self).value_of(name@),
            old(self).has(name@) ==> final(self).names() == old(self).names()
                && final(self).values() == old(self).values().update(
                old(self).names().index_of(name@),
                value,
            ),
            !old(self).has(name@) ==> final(self).names() == old(self).names().push(name@)
                && final(self).values() == old(self).values().push(value),
            final(self)@ == old(self)@.insert(name@, value),
    {
        proof {
            use_type_invariant(&*self);
        }
        let ghost before = *self;
        let found = self.position(name.as_str());
        let mut taken = NameMap::new();
        core::mem::swap(self, &mut taken);
        let NameMap { mut names, mut values } = taken;
        let previous = match found {
            Some(i) => {
                values.push(value);
                Some(values.swap_remove(i))
            },
            None => {
                names.push(name);
                values.push(value);
                None
            },
        };
        let ghost after = NameMap { names, values };
        proof {
            if found is Some {
                assert(after.names() == before.names());
                assert(after.values() =~= before.values().update(found->0 as int, value));
                Self::lemma_view_update(before, after, name@, value);
            } else {
                assert(after.names() =~= before.names().push(name@));
                Self::lemma_view_push(before, after, name@, value);
            }
        }
        *self = NameMap { names, values };
        previous
    }

    proof fn lemma_view_update(before: Self, after: Self, name: Seq<char>, value: T)
        requires
            before.wf(),
            before.has(name),
            after.names() == before.names(),
            after.values() == before.values().update(before.names().index_of(name), value),
        ensures
            after.wf(),
            after@ == before@.insert(name, value),
    {
        let at = before.names().index_of(name);
        assert(before.names()[at] == name);
        assert forall|k: Seq<char>| #[trigger] after@.dom().contains(k) implies after@[k]
            == before@.insert(name, value)[k] by {
            let j = before.names().index_of(k);
            assert(before.names()[j] == k);
            if k != name {
                assert(j != at);
            }
        }
        assert(after@ =~= before@.insert(name, value));
    }

    proof fn lemma_view_push(before: Self, after: Self, name: Seq<char>, value: T)
        requires
            before.wf(),
            !before.has(name),
            after.names() == before.names().push(name),
            after.values() == before.values().push(value),
        ensures
            after.wf(),
            after@ == before@.insert(name, value),
    {
        let n = before.names().len() as int;
        assert forall|i: int, j: int|
            0 <= i < after.names().len() && 0 <= j < after.names().len() && i != j implies
            after.names()[i] != after.names()[j] by {
            if i < n && j < n {
            } else if i < n {
                assert(before.names().contains(before.names()[i]));
            } else {
                assert(before.names().contains(before.names()[j]));
            }
        }
        assert forall|k: Seq<char>| after.has(k) <==> (before.has(k) || k == name) by {
            if before.has(k) {
                let j = before.names().index_of(k);
                assert(before.names()[j] == k);
                assert(after.names()[j] == k);
            }
            if k == name {
                assert(after.names()[n] == k);
            }
            if after.has(k) {
                let j = after.names().index_of(k);
                assert(after.names()[j] == k);
                if j < n {
                    assert(before.names()[j] == k);
                }
            }
        }
        assert forall|k: Seq<char>| #[trigger] after@.dom().contains(k) implies after@[k]
            == before@.insert(name, value)[k] by {
            let j = after.names().index_of(k);
            assert(after.names()[j] == k);
            if k == name {
                assert(after.names()[n] == k);
                assert(j == n);
            } else {
                let i = before.names().index_of(k);
                assert(before.names()[i] == k);
                assert(after.names()[i] == k);
                assert(i == j);
            }
        }
        assert(after@ =~= before@.insert(name, value));
    }
}

impl<T> Default for NameMap<T> {
    fn default() -> (map: Self)
        ensures
            map.names() == Seq::<Seq<char>>::empty(),
            map.values() == Seq::<T>::empty(),
            map.wf(),
    {
        NameMap::new()
    }
}

} // verus!
