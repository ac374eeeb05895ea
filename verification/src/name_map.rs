//! A small ordered map from names to values.
//!
//! Entries keep the order in which their names first came in, and no name
//! occurs twice.

use vstd::prelude::*;

verus! {

/// No two entries carry the same name.
pub open spec fn distinct_names<V>(entries: Seq<(Seq<char>, V)>) -> bool {
    forall|i: int, j: int|
        0 <= i < j < entries.len() ==> (#[trigger] entries[i]).0 != (#[trigger] entries[j]).0
}

/// Some entry carries `name`.
pub open spec fn has_name<V>(entries: Seq<(Seq<char>, V)>, name: Seq<char>) -> bool {
    exists|i: int| 0 <= i < entries.len() && (#[trigger] entries[i]).0 == name
}

/// The place of an entry that carries `name`, where there is one.
pub open spec fn position<V>(entries: Seq<(Seq<char>, V)>, name: Seq<char>) -> int {
    choose|i: int| 0 <= i < entries.len() && (#[trigger] entries[i]).0 == name
}

/// The value bound to `name`, where there is one.
pub open spec fn bound_value<V>(entries: Seq<(Seq<char>, V)>, name: Seq<char>) -> V {
    entries[position(entries, name)].1
}

/// The entries after `name` has been bound to `value`: an entry of that name
/// gets the new value in place, otherwise the new entry comes last.
pub open spec fn with_entry<V>(entries: Seq<(Seq<char>, V)>, name: Seq<char>, value: V) -> Seq<
    (Seq<char>, V),
> {
    if has_name(entries, name) {
        entries.update(position(entries, name), (name, value))
    } else {
        entries.push((name, value))
    }
}

/// Among distinct names, the entry at `i` is the one that its name finds.
pub proof fn lemma_position_unique<V>(entries: Seq<(Seq<char>, V)>, i: int)
    requires
        distinct_names(entries),
        0 <= i < entries.len(),
    ensures
        has_name(entries, entries[i].0),
        position(entries, entries[i].0) == i,
        bound_value(entries, entries[i].0) == entries[i].1,
{
    let name = entries[i].0;
    let p = position(entries, name);
    assert(0 <= p < entries.len() && entries[p].0 == name);
}

/// Binding a name keeps the names distinct.
pub proof fn lemma_with_entry_distinct<V>(entries: Seq<(Seq<char>, V)>, name: Seq<char>, value: V)
    requires
        distinct_names(entries),
    ensures
        distinct_names(with_entry(entries, name, value)),
        has_name(with_entry(entries, name, value), name),
        bound_value(with_entry(entries, name, value), name) == value,
{
    let after = with_entry(entries, name, value);
    if has_name(entries, name) {
        let p = position(entries, name);
        assert(after[p].0 == name);
        assert forall|i: int, j: int| 0 <= i < j < after.len() implies (#[trigger] after[i]).0 != (
        #[trigger] after[j]).0 by {
            assert(after[i].0 == entries[i].0);
            assert(after[j].0 == entries[j].0);
        }
        lemma_position_unique(after, p);
    } else {
        let last = entries.len() as int;
        assert(after[last].0 == name);
        assert forall|i: int, j: int| 0 <= i < j < after.len() implies (#[trigger] after[i]).0 != (
        #[trigger] after[j]).0 by {
            if j < last {
                assert(after[i] == entries[i]);
                assert(after[j] == entries[j]);
            } else {
                assert(after[i] == entries[i]);
            }
        }
        lemma_position_unique(after, last);
    }
}

/// An ordered map from names to values of type `V`.
#[derive(Debug, PartialEq)]
pub struct NameMap<V> {
    entries: Vec<(String, V)>,
}

impl<V> View for NameMap<V> {
    type V = Seq<(Seq<char>, V)>;

    /// The entries in order, each name as its characters.
    closed spec fn view(&self) -> Seq<(Seq<char>, V)> {
        by_characters(self.entries@)
    }
}

/// The entries with each name as its characters.
spec fn by_characters<V>(entries: Seq<(String, V)>) -> Seq<(Seq<char>, V)> {
    Seq::new(entries.len(), |i: int| (entries[i].0@, entries[i].1))
}

impl<V: Clone> Clone for NameMap<V> {
    /// A map of the same names in the same order, each bound to a clone of
    /// its value.
    fn clone(&self) -> (copy: Self)
        ensures
            copy@.len() == self@.len(),
            forall|i: int|
                0 <= i < self@.len() ==> (#[trigger] copy@[i]).0 == self@[i].0 && cloned(
                    self@[i].1,
                    copy@[i].1,
                ),
    {
        proof {
            use_type_invariant(self);
        }
        let mut entries: Vec<(String, V)> = Vec::new();
        let mut i: usize = 0;
        while i < self.entries.len()
            invariant
                i <= self.entries@.len(),
                entries@.len() == i,
                forall|j: int|
                    0 <= j < i ==> (#[trigger] entries@[j]).0@ == self.entries@[j].0@ && cloned(
                        self.entries@[j].1,
                        entries@[j].1,
                    ),
            decreases self.entries@.len() - i,
        {
            entries.push((self.entries[i].0.clone(), self.entries[i].1.clone()));
            i = i + 1;
        }
        assert forall|a: int, b: int| 0 <= a < b < entries@.len() implies (#[trigger] by_characters(
            entries@,
        )[a]).0 != (#[trigger] by_characters(entries@)[b]).0 by {
            assert(self@[a].0 != self@[b].0);
        }
        NameMap { entries }
    }
}

impl<V> NameMap<V> {
    /// What every map satisfies: its names are distinct.
    #[verifier::type_invariant]
    pub open spec fn well_formed(&self) -> bool {
        distinct_names(self@)
    }

    /// Whether `name` is bound.
    pub open spec fn contains(&self, name: Seq<char>) -> bool {
        has_name(self@, name)
    }

    /// The value bound to `name`, where it is bound.
    pub open spec fn value_of(&self, name: Seq<char>) -> V {
        bound_value(self@, name)
    }

    /// An empty map.
    pub fn new() -> (map: Self)
        ensures
            map@ == Seq::<(Seq<char>, V)>::empty(),
            map.well_formed(),
    {
        let map = NameMap { entries: Vec::new() };
        assert(map@ =~= Seq::<(Seq<char>, V)>::empty());
        map
    }

    /// The number of entries.
    pub fn len(&self) -> (n: usize)
        ensures
            n == self@.len(),
    {
        self.entries.len()
    }

    /// Whether the map has no entry.
    pub fn is_empty(&self) -> (empty: bool)
        ensures
            empty == (self@.len() == 0),
    {
        self.entries.len() == 0
    }

    /// The place of the entry that carries `name`.
    pub fn index_of(&self, name: &str) -> (found: Option<usize>)
        ensures
            self.well_formed(),
            match found {
                Some(i) => i < self@.len() && self@[i as int].0 == name@ && self.contains(name@)
                    && position(self@, name@) == i,
                None => !self.contains(name@),
            },
    {
        proof {
            use_type_invariant(self);
        }
        let key: String = name.to_owned();
        let mut i: usize = 0;
        while i < self.entries.len()
            invariant
                i <= self.entries@.len(),
                key@ == name@,
                distinct_names(self@),
                forall|j: int| 0 <= j < i ==> (#[trigger] self@[j]).0 != name@,
            decreases self.entries@.len() - i,
        {
            if self.entries[i].0 == key {
                proof {
                    lemma_position_unique(self@, i as int);
                }
                return Some(i);
            }
            i = i + 1;
        }
        None
    }

    /// Whether `name` is bound.
    pub fn contains_key(&self, name: &str) -> (found: bool)
        ensures
            found == self.contains(name@),
    {
        self.index_of(name).is_some()
    }

    /// The value bound to `name`.
    pub fn get(&self, name: &str) -> (found: Option<&V>)
        ensures
            match found {
                Some(value) => self.contains(name@) && *value == self.value_of(name@),
                None => !self.contains(name@),
            },
    {
        match self.index_of(name) {
            Some(i) => Some(&self.entries[i].1),
            None => None,
        }
    }

    /// The name of the entry at `i`.
    pub fn name_at(&self, i: usize) -> (name: &String)
        requires
            i < self@.len(),
        ensures
            name@ == self@[i as int].0,
    {
        &self.entries[i].0
    }

    /// The value of the entry at `i`.
    pub fn value_at(&self, i: usize) -> (value: &V)
        requires
            i < self@.len(),
        ensures
            *value == self@[i as int].1,
    {
        &self.entries[i].1
    }

    /// Binds `name` to `value`. A name that is bound already keeps its place
    /// and gets the new value; a new name comes last.
    pub fn insert(&mut self, name: String, value: V)
        ensures
            final(self)@ == with_entry(old(self)@, name@, value),
            final(self).well_formed(),
    {
        proof {
            use_type_invariant(&*self);
            lemma_with_entry_distinct(self@, name@, value);
        }
        let found = self.index_of(name.as_str());
        let mut entries: Vec<(String, V)> = Vec::new();
        core::mem::swap(&mut self.entries, &mut entries);
        match found {
            Some(i) => {
                entries.set(i, (name, value));
            },
            None => {
                entries.push((name, value));
            },
        }
        assert(by_characters(entries@) =~= with_entry(old(self)@, name@, value));
        core::mem::swap(&mut self.entries, &mut entries);
    }

    /// Gives the entries up, in order.
    pub fn into_entries(self) -> (entries: Vec<(String, V)>)
        ensures
            entries@.len() == self@.len(),
            forall|i: int|
                0 <= i < entries@.len() ==> (#[trigger] entries@[i]).0@ == self@[i].0 && entries@[i].1
                    == self@[i].1,
    {
        self.entries
    }
}

} // verus!
