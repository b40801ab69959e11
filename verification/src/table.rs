//! A small map from names to values that keeps the order in which names were
//! first inserted.
//!
//! The table stands where a hash map keyed by strings would: of such a map
//! Verus can prove nothing, since the map rests on how `String` hashes and
//! compares. The table keeps its entries in a list, compares names character
//! by character, and proves of every method what a map promises. It holds a
//! handful of addons or configuration fields, so the linear search costs
//! nothing that matters.
use crate::text::str_eq;
use vstd::prelude::*;

verus! {

/// The name under which the entry at position `i` stands.
pub open spec fn key_at<T>(entries: Seq<(String, T)>, i: int) -> Seq<char> {
    entries[i].0@
}

/// The names of the entries, in order.
pub open spec fn keys_of<T>(entries: Seq<(String, T)>) -> Seq<Seq<char>> {
    Seq::new(entries.len(), |i: int| key_at(entries, i))
}

/// No name stands twice among the entries.
pub open spec fn keys_unique<T>(entries: Seq<(String, T)>) -> bool {
    forall|i: int, j: int|
        0 <= i < j < entries.len() ==> #[trigger] key_at(entries, i) != #[trigger] key_at(
            entries,
            j,
        )
}

/// The map that a list of entries stands for; a later entry wins over an
/// earlier one of the same name.
pub open spec fn to_map<T>(entries: Seq<(String, T)>) -> Map<Seq<char>, T>
    decreases entries.len(),
{
    if entries.len() == 0 {
        Map::empty()
    } else {
        to_map(entries.drop_last()).insert(entries.last().0@, entries.last().1)
    }
}

/// A name is in the map exactly when some entry carries it.
pub proof fn lemma_to_map_dom<T>(entries: Seq<(String, T)>, key: Seq<char>)
    ensures
        to_map(entries).dom().contains(key) <==> exists|i: int|
            0 <= i < entries.len() && #[trigger] key_at(entries, i) == key,
        to_map(entries).dom().finite(),
    decreases entries.len(),
{
    if entries.len() > 0 {
        let front = entries.drop_last();
        lemma_to_map_dom(front, key);
        if to_map(entries).dom().contains(key) {
            if entries.last().0@ == key {
                assert(key_at(entries, entries.len() - 1) == key);
            } else {
                let i = choose|i: int| 0 <= i < front.len() && #[trigger] key_at(front, i) == key;
                assert(key_at(entries, i) == key);
            }
        }
        if exists|i: int| 0 <= i < entries.len() && #[trigger] key_at(entries, i) == key {
            let i = choose|i: int| 0 <= i < entries.len() && #[trigger] key_at(entries, i) == key;
            if i < front.len() {
                assert(key_at(front, i) == key);
            }
        }
    }
}

/// With unique names, the map holds each entry's value under its name.
pub proof fn lemma_to_map_index<T>(entries: Seq<(String, T)>, i: int)
    requires
        keys_unique(entries),
        0 <= i < entries.len(),
    ensures
        to_map(entries).dom().contains(key_at(entries, i)),
        to_map(entries)[key_at(entries, i)] == entries[i].1,
    decreases entries.len(),
{
    let front = entries.drop_last();
    if i < entries.len() - 1 {
        assert(keys_unique(front)) by {
            assert forall|a: int, b: int| 0 <= a < b < front.len() implies #[trigger] key_at(
                front,
                a,
            ) != #[trigger] key_at(front, b) by {
                assert(key_at(entries, a) != key_at(entries, b));
            }
        }
        lemma_to_map_index(front, i);
        assert(key_at(front, i) == key_at(entries, i));
        assert(key_at(entries, i) != key_at(entries, entries.len() - 1));
    }
}

/// Replacing the value of an entry in place is the map's `insert`.
pub proof fn lemma_to_map_update<T>(entries: Seq<(String, T)>, i: int, entry: (String, T))
    requires
        keys_unique(entries),
        0 <= i < entries.len(),
        entry.0@ == key_at(entries, i),
    ensures
        keys_unique(entries.update(i, entry)),
        keys_of(entries.update(i, entry)) == keys_of(entries),
        to_map(entries.update(i, entry)) == to_map(entries).insert(entry.0@, entry.1),
    decreases entries.len(),
{
    let after = entries.update(i, entry);
    assert(keys_of(after) =~= keys_of(entries));
    assert(keys_unique(after)) by {
        assert forall|a: int, b: int| 0 <= a < b < after.len() implies #[trigger] key_at(
            after,
            a,
        ) != #[trigger] key_at(after, b) by {
            assert(key_at(entries, a) != key_at(entries, b));
        }
    }
    let front = entries.drop_last();
    if i == entries.len() - 1 {
        assert(after.drop_last() =~= front);
        assert(to_map(after) =~= to_map(entries).insert(entry.0@, entry.1));
    } else {
        assert(keys_unique(front)) by {
            assert forall|a: int, b: int| 0 <= a < b < front.len() implies #[trigger] key_at(
                front,
                a,
            ) != #[trigger] key_at(front, b) by {
                assert(key_at(entries, a) != key_at(entries, b));
            }
        }
        assert(key_at(front, i) == key_at(entries, i));
        lemma_to_map_update(front, i, entry);
        assert(after.drop_last() =~= front.update(i, entry));
        assert(key_at(entries, i) != key_at(entries, entries.len() - 1));
        assert(to_map(after) =~= to_map(entries).insert(entry.0@, entry.1));
    }
}

/// With unique names, the list of names is the domain of the map, each once.
pub proof fn lemma_keys_are_dom<T>(entries: Seq<(String, T)>)
    requires
        keys_unique(entries),
    ensures
        keys_of(entries).no_duplicates(),
        to_map(entries).dom().finite(),
        forall|key: Seq<char>| keys_of(entries).contains(key) <==> to_map(entries).dom().contains(key),
        keys_of(entries).len() == to_map(entries).dom().len(),
{
    let keys = keys_of(entries);
    lemma_to_map_dom(entries, Seq::empty());
    assert forall|i: int, j: int| 0 <= i < keys.len() && 0 <= j < keys.len() && i != j implies keys[i]
        != keys[j] by {
        if i < j {
            assert(key_at(entries, i) != key_at(entries, j));
        } else {
            assert(key_at(entries, j) != key_at(entries, i));
        }
    }
    assert forall|key: Seq<char>| keys.contains(key) <==> to_map(entries).dom().contains(key) by {
        lemma_to_map_dom(entries, key);
        if keys.contains(key) {
            let i = choose|i: int| 0 <= i < keys.len() && keys[i] == key;
            assert(key_at(entries, i) == key);
        }
        if to_map(entries).dom().contains(key) {
            let i = choose|i: int| 0 <= i < entries.len() && #[trigger] key_at(entries, i) == key;
            assert(keys[i] == key);
        }
    }
    keys.unique_seq_to_set();
    assert(keys.to_set() =~= to_map(entries).dom());
}

/// A map from names to values. A name stands in it at most once; `keys`
/// lists the names in the order in which they first came in.
#[derive(Debug)]
pub struct StringTable<T> {
    entries: Vec<(String, T)>,
}

impl<T> View for StringTable<T> {
    type V = Map<Seq<char>, T>;

    closed spec fn view(&self) -> Map<Seq<char>, T> {
        to_map(self.entries@)
    }
}

impl<T> StringTable<T> {
    /// No name stands twice in the table. Every table that `new` made and
    /// the methods below changed is well formed.
    pub closed spec fn well_formed(&self) -> bool {
        keys_unique(self.entries@)
    }

    /// The names in the table, in the order in which they first came in.
    pub closed spec fn spec_keys(&self) -> Seq<Seq<char>> {
        keys_of(self.entries@)
    }

    /// An empty table.
    pub fn new() -> (table: Self)
        ensures
            table.well_formed(),
            table@ == Map::<Seq<char>, T>::empty(),
            table.spec_keys() == Seq::<Seq<char>>::empty(),
    {
        let table = StringTable { entries: Vec::new() };
        assert(table.spec_keys() =~= Seq::<Seq<char>>::empty());
        table
    }

    /// The number of names in the table.
    pub fn len(&self) -> (n: usize)
        requires
            self.well_formed(),
        ensures
            n == self.spec_keys().len(),
            n == self@.dom().len(),
    {
        proof {
            lemma_keys_are_dom(self.entries@);
        }
        self.entries.len()
    }

    /// The position of `key` among the entries, if it is there.
    fn position(&self, key: &str) -> (at: Option<usize>)
        ensures
            match at {
                Some(i) => i < self.entries@.len() && key_at(self.entries@, i as int) == key@,
                None => !self@.dom().contains(key@),
            },
    {
        let mut i: usize = 0;
        while i < self.entries.len()
            invariant
                i <= self.entries.len(),
                forall|j: int| 0 <= j < i ==> key_at(self.entries@, j) != key@,
            decreases self.entries.len() - i,
        {
            if str_eq(self.entries[i].0.as_str(), key) {
                return Some(i);
            }
            i += 1;
        }
        proof {
            lemma_to_map_dom(self.entries@, key@);
        }
        None
    }

    /// Whether the table holds `key`.
    pub fn contains_key(&self, key: &str) -> (found: bool)
        requires
            self.well_formed(),
        ensures
            found == self@.dom().contains(key@),
    {
        match self.position(key) {
            Some(i) => {
                proof {
                    lemma_to_map_index(self.entries@, i as int);
                }
                true
            },
            None => false,
        }
    }

    /// The value under `key`, if the table holds one.
    pub fn get(&self, key: &str) -> (value: Option<&T>)
        requires
            self.well_formed(),
        ensures
            match value {
                Some(v) => self@.dom().contains(key@) && *v == self@[key@],
                None => !self@.dom().contains(key@),
            },
    {
        match self.position(key) {
            Some(i) => {
                proof {
                    lemma_to_map_index(self.entries@, i as int);
                }
                Some(&self.entries[i].1)
            },
            None => None,
        }
    }

    /// Puts `value` under `key`, in place of the value that was there if the
    /// table held the name already.
    pub fn insert(&mut self, key: String, value: T)
        requires
            old(self).well_formed(),
        ensures
            final(self).well_formed(),
            final(self)@ == old(self)@.insert(key@, value),
            final(self).spec_keys() == if old(self)@.dom().contains(key@) {
                old(self).spec_keys()
            } else {
                old(self).spec_keys().push(key@)
            },
    {
        let ghost before = self.entries@;
        match self.position(key.as_str()) {
            Some(i) => {
                proof {
                    lemma_to_map_index(before, i as int);
                    lemma_to_map_update(before, i as int, (key, value));
                }
                self.entries.set(i, (key, value));
            },
            None => {
                self.entries.push((key, value));
                proof {
                    let after = self.entries@;
                    assert(after.drop_last() =~= before);
                    assert(keys_of(after) =~= keys_of(before).push(key@));
                    assert forall|a: int, b: int| 0 <= a < b < after.len() implies #[trigger] key_at(
                        after,
                        a,
                    ) != #[trigger] key_at(after, b) by {
                        lemma_to_map_dom(before, key@);
                        if b == after.len() - 1 {
                            assert(key_at(before, a) == key_at(after, a));
                        } else {
                            assert(key_at(before, a) != key_at(before, b));
                        }
                    }
                }
            },
        }
    }

    /// The names in the table, in the order in which they first came in.
    pub fn keys(&self) -> (names: Vec<String>)
        requires
            self.well_formed(),
        ensures
            names.deep_view() == self.spec_keys(),
            names.deep_view().no_duplicates(),
            forall|key: Seq<char>| names.deep_view().contains(key) <==> self@.dom().contains(key),
    {
        proof {
            lemma_keys_are_dom(self.entries@);
        }
        let mut names: Vec<String> = Vec::new();
        let mut i: usize = 0;
        while i < self.entries.len()
            invariant
                i <= self.entries.len(),
                names.len() == i,
                forall|j: int| 0 <= j < i ==> names[j]@ == key_at(self.entries@, j),
            decreases self.entries.len() - i,
        {
            names.push(self.entries[i].0.clone());
            i += 1;
        }
        assert(names.deep_view() =~= self.spec_keys());
        names
    }

    /// Moves every entry of `other` into the table; where both hold a name,
    /// the value of `other` stays.
    pub fn extend(&mut self, other: StringTable<T>)
        requires
            old(self).well_formed(),
            other.well_formed(),
        ensures
            final(self).well_formed(),
            final(self)@ == old(self)@.union_prefer_right(other@),
    {
        let ghost incoming = other.entries@;
        let ghost start = self@;
        let mut rest = other.entries;
        let ghost mut taken: Seq<(String, T)> = Seq::empty();
        while rest.len() > 0
            invariant
                self.well_formed(),
                taken + rest@ == incoming,
                self@ == start.union_prefer_right(to_map(taken)),
            decreases rest.len(),
        {
            let entry = rest.remove(0);
            proof {
                let before = taken;
                taken = taken.push(entry);
                assert(taken.drop_last() =~= before);
                assert(taken + rest@ =~= incoming);
                assert(start.union_prefer_right(to_map(before)).insert(entry.0@, entry.1)
                    =~= start.union_prefer_right(to_map(taken)));
            }
            self.insert(entry.0, entry.1);
        }
        assert(taken =~= incoming);
    }
}

} // verus!
