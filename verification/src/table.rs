//! A table of values under string names, where each name occurs once.
//!
//! It holds the user properties of a `V8Js` object, the registered PHP
//! callbacks and the cache of loaded CommonJS modules.
use vstd::prelude::*;

verus! {

/// Whether the names of the entries are pairwise distinct.
pub open spec fn names_distinct<V>(entries: Seq<(String, V)>) -> bool {
    forall|i: int, j: int|
        0 <= i < entries.len() && 0 <= j < entries.len() && i != j ==> #[trigger] entries[i].0@
            != #[trigger] entries[j].0@
}

/// Whether some entry carries the given name.
pub open spec fn has_name<V>(entries: Seq<(String, V)>, name: Seq<char>) -> bool {
    exists|i: int| 0 <= i < entries.len() && #[trigger] entries[i].0@ == name
}

/// The map from names to values that a list of entries stands for.
pub open spec fn entries_map<V>(entries: Seq<(String, V)>) -> Map<Seq<char>, V> {
    Map::new(
        |name: Seq<char>| has_name(entries, name),
        |name: Seq<char>|
            entries[choose|i: int| 0 <= i < entries.len() && #[trigger] entries[i].0@ == name].1,
    )
}

/// A table of values under distinct string names.
pub struct NamedTable<V> {
    entries: Vec<(String, V)>,
}

impl<V> View for NamedTable<V> {
    type V = Map<Seq<char>, V>;

    closed spec fn view(&self) -> Map<Seq<char>, V> {
        entries_map(self.entries@)
    }
}

proof fn lemma_entry_value<V>(entries: Seq<(String, V)>, i: int)
    requires
        names_distinct(entries),
        0 <= i < entries.len(),
    ensures
        entries_map(entries).contains_key(entries[i].0@),
        entries_map(entries)[entries[i].0@] == entries[i].1,
{
    let name = entries[i].0@;
    assert(has_name(entries, name));
    let k = choose|k: int| 0 <= k < entries.len() && #[trigger] entries[k].0@ == name;
    assert(k == i);
}

impl<V> NamedTable<V> {
    #[verifier::type_invariant]
    closed spec fn inv(self) -> bool {
        names_distinct(self.entries@)
    }

    /// An empty table.
    pub fn new() -> (table: Self)
        ensures
            table@ == Map::<Seq<char>, V>::empty(),
    {
        let table = NamedTable { entries: Vec::new() };
        assert(table@ =~= Map::<Seq<char>, V>::empty());
        table
    }

    /// The number of names in the table.
    pub fn len(&self) -> (n: usize)
        ensures
            n == self@.len(),
            self@.dom().finite(),
    {
        proof {
            use_type_invariant(self);
            self.lemma_dom();
        }
        self.entries.len()
    }

    proof fn lemma_dom(&self)
        requires
            names_distinct(self.entries@),
        ensures
            self@.dom().finite(),
            self@.len() == self.entries@.len(),
        decreases self.entries@.len(),
    {
        let names = self.entries@.map_values(|e: (String, V)| e.0@);
        assert forall|k: Seq<char>| #[trigger] self@.dom().contains(k) implies names.to_set().contains(k) by {
            let j = choose|j: int| 0 <= j < self.entries@.len() && #[trigger] self.entries@[j].0@ == k;
            assert(names[j] == k);
        }
        assert forall|k: Seq<char>| #[trigger] names.to_set().contains(k) implies self@.dom().contains(k) by {
            let j = choose|j: int| 0 <= j < names.len() && names[j] == k;
            assert(self.entries@[j].0@ == k);
        }
        assert(self@.dom() =~= names.to_set());
        assert(names.no_duplicates()) by {
            assert forall|i: int, j: int|
                0 <= i < names.len() && 0 <= j < names.len() && i != j implies names[i]
                != names[j] by {
                assert(self.entries@[i].0@ != self.entries@[j].0@);
            }
        }
        names.unique_seq_to_set();
    }

    /// The position of the entry with the given name, if there is one.
    fn position(&self, name: &String) -> (pos: Option<usize>)
        requires
            names_distinct(self.entries@),
        ensures
            match pos {
                Some(i) => i < self.entries@.len() && self.entries@[i as int].0@ == name@,
                None => !has_name(self.entries@, name@),
            },
    {
        let mut index: usize = 0;
        while index < self.entries.len()
            invariant
                index <= self.entries@.len(),
                forall|j: int| 0 <= j < index ==> #[trigger] self.entries@[j].0@ != name@,
            decreases self.entries@.len() - index,
        {
            if self.entries[index].0 == *name {
                return Some(index);
            }
            index = index + 1;
        }
        None
    }

    /// The value under the given name, if there is one.
    pub fn get(&self, name: &String) -> (value: Option<&V>)
        ensures
            match value {
                Some(v) => self@.contains_key(name@) && *v == self@[name@],
                None => !self@.contains_key(name@),
            },
    {
        proof {
            use_type_invariant(self);
        }
        match self.position(name) {
            Some(i) => {
                proof {
                    lemma_entry_value(self.entries@, i as int);
                }
                Some(&self.entries[i].1)
            },
            None => None,
        }
    }

    /// Whether the table holds a value under the given name.
    pub fn contains_key(&self, name: &String) -> (found: bool)
        ensures
            found == self@.contains_key(name@),
    {
        proof {
            use_type_invariant(self);
        }
        self.position(name).is_some()
    }

    /// Puts a value under a name, replacing the value that was there.
    pub fn insert(&mut self, name: String, value: V)
        ensures
            final(self)@ == old(self)@.insert(name@, value),
    {
        proof {
            use_type_invariant(&*self);
        }
        let ghost old_entries = self.entries@;
        let ghost key = name@;
        match self.position(&name) {
            Some(i) => {
                let mut entries = Vec::new();
                std::mem::swap(&mut entries, &mut self.entries);
                entries.set(i, (name, value));
                proof {
                    assert(names_distinct(entries@));
                    assert forall|k: Seq<char>|
                        #![auto]
                        entries_map(entries@).contains_key(k) == map_with(
                            old_entries,
                            key,
                            value,
                        ).contains_key(k) by {
                        assert(entries@[i as int].0@ == key);
                        if k == key {
                            assert(has_name(entries@, k));
                        }
                        if has_name(old_entries, k) {
                            let j = choose|j: int|
                                0 <= j < old_entries.len() && #[trigger] old_entries[j].0@ == k;
                            if j != i {
                                assert(entries@[j].0@ == k);
                            }
                            assert(has_name(entries@, k));
                        }
                        if has_name(entries@, k) {
                            let j = choose|j: int|
                                0 <= j < entries@.len() && #[trigger] entries@[j].0@ == k;
                            if j != i {
                                assert(old_entries[j].0@ == k);
                                assert(has_name(old_entries, k));
                            }
                        }
                    }
                    assert forall|k: Seq<char>|
                        #[trigger] entries_map(entries@).contains_key(k) implies entries_map(
                            entries@,
                        )[k] == map_with(old_entries, key, value)[k] by {
                        let j = choose|j: int|
                            0 <= j < entries@.len() && #[trigger] entries@[j].0@ == k;
                        lemma_entry_value(entries@, j);
                        if j != i {
                            lemma_entry_value(old_entries, j);
                        }
                    }
                    assert(entries_map(entries@) =~= map_with(
                        old_entries,
                        key,
                        value,
                    ));
                }
                self.entries = entries;
            },
            None => {
                let mut entries = Vec::new();
                std::mem::swap(&mut entries, &mut self.entries);
                entries.push((name, value));
                proof {
                    assert(names_distinct(entries@));
                    let n = old_entries.len() as int;
                    assert forall|k: Seq<char>|
                        #![auto]
                        entries_map(entries@).contains_key(k) == map_with(
                            old_entries,
                            key,
                            value,
                        ).contains_key(k) by {
                        assert(entries@[n].0@ == key);
                        if k == key {
                            assert(has_name(entries@, k));
                        }
                        if has_name(old_entries, k) {
                            let j = choose|j: int|
                                0 <= j < old_entries.len() && #[trigger] old_entries[j].0@ == k;
                            assert(entries@[j].0@ == k);
                            assert(has_name(entries@, k));
                        }
                        if has_name(entries@, k) {
                            let j = choose|j: int|
                                0 <= j < entries@.len() && #[trigger] entries@[j].0@ == k;
                            if j != n {
                                assert(old_entries[j].0@ == k);
                                assert(has_name(old_entries, k));
                            }
                        }
                    }
                    assert forall|k: Seq<char>|
                        #[trigger] entries_map(entries@).contains_key(k) implies entries_map(
                            entries@,
                        )[k] == map_with(old_entries, key, value)[k] by {
                        let j = choose|j: int|
                            0 <= j < entries@.len() && #[trigger] entries@[j].0@ == k;
                        lemma_entry_value(entries@, j);
                        if j != n {
                            lemma_entry_value(old_entries, j);
                        }
                    }
                    assert(entries_map(entries@) =~= map_with(
                        old_entries,
                        key,
                        value,
                    ));
                }
                self.entries = entries;
            },
        }
    }
}

/// The map of the entries, with one name set to a value.
spec fn map_with<V>(entries: Seq<(String, V)>, name: Seq<char>, value: V) -> Map<
    Seq<char>,
    V,
> {
    entries_map(entries).insert(name, value)
}

} // verus!
