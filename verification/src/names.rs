//! Tables keyed by name that remember the order in which names arrived.
//!
//! Shader variables, vertex attributes and textures are all found by name.
//! Where the order of the entries shows (texture units are handed out in
//! table order), it has to be the same on every run, so the table is a list:
//! a new name goes to the end, a known name keeps its place.

use vstd::prelude::*;

verus! {

/// Place of `name` among `names`, if it is there.
pub open spec fn position_of(names: Seq<Seq<char>>, name: Seq<char>) -> Option<int> {
    if exists|i: int| 0 <= i < names.len() && names[i] == name {
        Some(choose|i: int| 0 <= i < names.len() && names[i] == name)
    } else {
        None
    }
}

/// No name occurs twice.
pub open spec fn distinct(names: Seq<Seq<char>>) -> bool {
    forall|i: int, j: int| 0 <= i < j < names.len() ==> names[i] != names[j]
}

/// Where no name occurs twice, a name is found at the one place that holds it.
pub proof fn lemma_position_unique(names: Seq<Seq<char>>, name: Seq<char>, i: int)
    requires
        distinct(names),
        0 <= i < names.len(),
        names[i] == name,
    ensures
        position_of(names, name) == Some(i),
{
    let found = choose|k: int| 0 <= k < names.len() && names[k] == name;
    if found < i {
        assert(names[found] != names[i]);
    } else if i < found {
        assert(names[i] != names[found]);
    }
}

/// A name that is found is found at a place that holds it.
pub proof fn lemma_position_holds(names: Seq<Seq<char>>, name: Seq<char>)
    ensures
        match position_of(names, name) {
            Some(i) => 0 <= i < names.len() && names[i] == name,
            None => forall|k: int| 0 <= k < names.len() ==> names[k] != name,
        },
{
}

/// The least number below `n` for which `holds`, if there is one.
pub open spec fn first_index(n: int, holds: spec_fn(int) -> bool) -> Option<int> {
    if exists|i: int| 0 <= i < n && #[trigger] holds(i) {
        Some(
            choose|i: int|
                0 <= i < n && #[trigger] holds(i) && forall|j: int|
                    0 <= j < i ==> !#[trigger] holds(j),
        )
    } else {
        None
    }
}

/// A number for which `holds`, while it holds for none before it, is the
/// first.
pub proof fn lemma_first_index_is(n: int, holds: spec_fn(int) -> bool, i: int)
    requires
        0 <= i < n,
        holds(i),
        forall|j: int| 0 <= j < i ==> !#[trigger] holds(j),
    ensures
        first_index(n, holds) == Some(i),
{
    let k = choose|k: int|
        0 <= k < n && #[trigger] holds(k) && forall|j: int| 0 <= j < k ==> !#[trigger] holds(j);
    if k < i {
        assert(!holds(k));
    } else if i < k {
        assert(!holds(i));
    }
}

/// Where it holds for no number below `n`, there is no first.
pub proof fn lemma_first_index_none(n: int, holds: spec_fn(int) -> bool)
    requires
        forall|j: int| 0 <= j < n ==> !#[trigger] holds(j),
    ensures
        first_index(n, holds).is_none(),
{
}

/// `after` is `before` with `value` stored under `name`: in place of the
/// value that the name had, or at the end if the name is new.
pub open spec fn stored<V>(before: NameTable<V>, after: NameTable<V>, name: Seq<char>, value: V)
    -> bool {
    match before.position(name) {
        Some(i) => {
            &&& after.names() == before.names()
            &&& after.values() == before.values().update(i, value)
        },
        None => {
            &&& after.names() == before.names().push(name)
            &&& after.values() == before.values().push(value)
        },
    }
}

/// An insertion-ordered table from names to values.
#[derive(Clone, Debug)]
pub struct NameTable<V> {
    names: Vec<String>,
    values: Vec<V>,
}

impl<V> NameTable<V> {
    /// The names, in the order in which they were first inserted.
    pub closed spec fn names(&self) -> Seq<Seq<char>> {
        Seq::new(self.names@.len(), |i: int| self.names@[i]@)
    }

    /// The values, each at the place of its name.
    pub closed spec fn values(&self) -> Seq<V> {
        self.values@
    }

    /// Every name has one value, and no name occurs twice.
    pub open spec fn wf(&self) -> bool {
        &&& self.names().len() == self.values().len()
        &&& distinct(self.names())
    }

    /// Place of `name` in the table, if it is there.
    pub open spec fn position(&self, name: Seq<char>) -> Option<int> {
        position_of(self.names(), name)
    }

    /// The value stored under `name`, if there is one.
    pub open spec fn lookup(&self, name: Seq<char>) -> Option<V> {
        match self.position(name) {
            Some(i) => Some(self.values()[i]),
            None => None,
        }
    }

    /// An empty table.
    pub fn new() -> (table: Self)
        ensures
            table.wf(),
            table.names() == Seq::<Seq<char>>::empty(),
            table.values() == Seq::<V>::empty(),
    {
        let table = NameTable { names: Vec::new(), values: Vec::new() };
        assert(table.names() =~= Seq::<Seq<char>>::empty());
        table
    }

    /// Number of entries.
    pub fn len(&self) -> (n: usize)
        requires
            self.wf(),
        ensures
            n == self.names().len(),
            n == self.values().len(),
    {
        self.names.len()
    }

    /// The name at place `i`.
    pub fn name(&self, i: usize) -> (name: &String)
        requires
            i < self.names().len(),
        ensures
            name@ == self.names()[i as int],
    {
        &self.names[i]
    }

    /// The value at place `i`.
    pub fn value(&self, i: usize) -> (value: &V)
        requires
            i < self.values().len(),
        ensures
            *value == self.values()[i as int],
    {
        &self.values[i]
    }

    /// Finds the place of `name`.
    pub fn find(&self, name: &String) -> (place: Option<usize>)
        requires
            self.wf(),
        ensures
            match place {
                Some(i) => self.position(name@) == Some(i as int) && i < self.names().len(),
                None => self.position(name@).is_none(),
            },
    {
        let mut i: usize = 0;
        while i < self.names.len()
            invariant
                self.wf(),
                i <= self.names@.len(),
                forall|k: int| 0 <= k < i ==> self.names()[k] != name@,
            decreases self.names@.len() - i,
        {
            if self.names[i] == *name {
                proof {
                    lemma_position_unique(self.names(), name@, i as int);
                }
                return Some(i);
            }
            i += 1;
        }
        None
    }

    /// Puts `value` in place of the value at place `i`.
    pub fn replace(&mut self, i: usize, value: V)
        requires
            old(self).wf(),
            i < old(self).values().len(),
        ensures
            final(self).wf(),
            final(self).names() == old(self).names(),
            final(self).values() == old(self).values().update(i as int, value),
    {
        self.values.set(i, value);
    }

    /// Stores `value` under `name`: in place of the value that the name had,
    /// or at the end of the table if the name is new.
    pub fn insert(&mut self, name: String, value: V)
        requires
            old(self).wf(),
        ensures
            final(self).wf(),
            stored(*old(self), *final(self), name@, value),
    {
        match self.find(&name) {
            Some(i) => {
                self.values.set(i, value);
            },
            None => {
                let ghost before = self.names();
                self.names.push(name);
                self.values.push(value);
                assert(self.names() =~= before.push(name@));
            },
        }
    }
}

/// After `insert`, the name is found and holds the value given; every other
/// name is found as before.
pub proof fn lemma_insert_lookup<V>(
    before: NameTable<V>,
    after: NameTable<V>,
    name: Seq<char>,
    value: V,
    other: Seq<char>,
)
    requires
        before.wf(),
        after.wf(),
        stored(before, after, name, value),
    ensures
        after.lookup(name) == Some(value),
        other != name ==> after.lookup(other) == before.lookup(other),
{
    lemma_position_holds(before.names(), name);
    lemma_position_holds(before.names(), other);
    lemma_position_holds(after.names(), other);
    match before.position(name) {
        Some(i) => {
            lemma_position_unique(after.names(), name, i);
        },
        None => {
            let last = before.names().len() as int;
            assert(after.names()[last] == name);
            lemma_position_unique(after.names(), name, last);
            if other != name {
                match before.position(other) {
                    Some(j) => {
                        assert(after.names()[j] == other);
                        lemma_position_unique(after.names(), other, j);
                    },
                    None => {
                        if let Some(j) = after.position(other) {
                            assert(j < last);
                            assert(before.names()[j] == other);
                        }
                    },
                }
            }
        },
    }
}

} // verus!
