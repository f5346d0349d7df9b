//! The extension keywords of a schema object: a finite map from keyword names
//! to JSON values.

use vstd::prelude::*;

verus! {

/// A map from keyword names to JSON values.
///
/// The entries are kept in the order in which their keys first came in, and no
/// key occurs twice. Two maps are `==` when they hold the same entries in the
/// same order, so the order is part of the view.
#[derive(Debug, PartialEq)]
pub struct Extensions {
    entries: Vec<(String, serde_json::Value)>,
}

/// What an [`Extensions`] holds, as a mathematical value.
pub struct ExtensionsView {
    /// The value of each key, a key being a sequence of characters.
    pub values: Map<Seq<char>, serde_json::Value>,
    /// The keys in the order in which they first came in.
    pub order: Seq<Seq<char>>,
}

impl ExtensionsView {
    /// The map without entries.
    pub open spec fn empty() -> ExtensionsView {
        ExtensionsView { values: Map::empty(), order: Seq::empty() }
    }

    /// The map with `value` as the value of `key`. A key that is new goes
    /// behind the others; one that is there keeps its place.
    pub open spec fn with_entry(self, key: Seq<char>, value: serde_json::Value) -> ExtensionsView {
        ExtensionsView {
            values: self.values.insert(key, value),
            order: if self.values.contains_key(key) {
                self.order
            } else {
                self.order.push(key)
            },
        }
    }

    /// The value of `key`, if the map has one.
    pub open spec fn value_of(self, key: Seq<char>) -> Option<serde_json::Value> {
        if self.values.contains_key(key) {
            Some(self.values[key])
        } else {
            None
        }
    }
}

/// Whether `key` stands at position `i` of `entries`.
spec fn holds_key_at(
    entries: Seq<(String, serde_json::Value)>,
    key: Seq<char>,
    i: int,
) -> bool {
    0 <= i < entries.len() && entries[i].0@ == key
}

/// Whether no key occurs at two positions of `entries`.
spec fn keys_distinct(entries: Seq<(String, serde_json::Value)>) -> bool {
    forall|i: int, j: int|
        0 <= i < j < entries.len() ==> (#[trigger] entries[i]).0@ != (#[trigger] entries[j]).0@
}

/// The map that a sequence of entries stands for: each key with the value
/// that stands beside it.
spec fn entries_map(entries: Seq<(String, serde_json::Value)>) -> Map<
    Seq<char>,
    serde_json::Value,
> {
    Map::new(
        |key: Seq<char>| exists|i: int| holds_key_at(entries, key, i),
        |key: Seq<char>| entries[choose|i: int| holds_key_at(entries, key, i)].1,
    )
}

/// The keys of a sequence of entries, in the same order.
spec fn entries_keys(entries: Seq<(String, serde_json::Value)>) -> Seq<Seq<char>> {
    Seq::new(entries.len(), |i: int| entries[i].0@)
}

impl View for Extensions {
    type V = ExtensionsView;

    closed spec fn view(&self) -> ExtensionsView {
        ExtensionsView { values: entries_map(self.entries@), order: entries_keys(self.entries@) }
    }
}

impl Extensions {
    #[verifier::type_invariant]
    spec fn well_formed(self) -> bool {
        keys_distinct(self.entries@)
    }

    /// The map without entries.
    pub fn new() -> (extensions: Extensions)
        ensures
            extensions@ == ExtensionsView::empty(),
    {
        let extensions = Extensions { entries: Vec::new() };
        assert(extensions@.values =~= Map::<Seq<char>, serde_json::Value>::empty());
        assert(extensions@.order =~= Seq::<Seq<char>>::empty());
        extensions
    }

    /// The number of entries.
    pub fn len(&self) -> (len: usize)
        ensures
            len == self@.order.len(),
    {
        self.entries.len()
    }

    /// The entry at position `i` in the order of the keys, if there are that
    /// many: the key and its value.
    pub fn entry(&self, i: usize) -> (entry: Option<(&str, &serde_json::Value)>)
        ensures
            entry is Some <==> i < self@.order.len(),
            entry matches Some((key, value)) ==> key@ == self@.order[i as int]
                && self@.value_of(key@) == Some(*value),
    {
        if i < self.entries.len() {
            proof {
                use_type_invariant(self);
                lemma_entry_is_mapped(self.entries@, i as int);
            }
            Some((self.entries[i].0.as_str(), &self.entries[i].1))
        } else {
            None
        }
    }

    /// Where `key` stands among the entries, if it does.
    fn position(&self, key: &String) -> (found: Option<usize>)
        ensures
            match found {
                Some(i) => holds_key_at(self.entries@, key@, i as int),
                None => !self@.values.contains_key(key@),
            },
    {
        let mut i: usize = 0;
        while i < self.entries.len()
            invariant
                i <= self.entries.len(),
                forall|j: int| 0 <= j < i ==> !holds_key_at(self.entries@, key@, j),
            decreases self.entries.len() - i,
        {
            if self.entries[i].0 == *key {
                return Some(i);
            }
            i += 1;
        }
        None
    }

    /// The value of `key`, if the map has one.
    pub fn get(&self, key: &str) -> (value: Option<&serde_json::Value>)
        ensures
            value == match self@.value_of(key@) {
                Some(held) => Some(&held),
                None => None,
            },
    {
        let owned = key.to_owned();
        match self.position(&owned) {
            Some(i) => {
                proof {
                    use_type_invariant(self);
                    lemma_entry_is_mapped(self.entries@, i as int);
                }
                Some(&self.entries[i].1)
            },
            None => None,
        }
    }

    /// Sets the value of `key`, and returns the value that it had before.
    ///
    /// A key that is new goes behind the others; one that is there keeps its
    /// place.
    pub fn insert(&mut self, key: String, value: serde_json::Value) -> (previous: Option<
        serde_json::Value,
    >)
        ensures
            final(self)@ == old(self)@.with_entry(key@, value),
            previous == old(self)@.value_of(key@),
    {
        proof {
            use_type_invariant(&*self);
        }
        let found = self.position(&key);
        let ghost before = self.entries@;
        let mut entries: Vec<(String, serde_json::Value)> = Vec::new();
        std::mem::swap(&mut self.entries, &mut entries);
        let previous = match found {
            Some(i) => {
                let (_, old_value) = entries.remove(i);
                entries.insert(i, (key, value));
                proof {
                    lemma_entry_is_mapped(before, i as int);
                    lemma_replaced_entry(before, i as int, entries@[i as int]);
                    assert(entries@ =~= before.update(i as int, entries@[i as int]));
                    assert(entries_keys(entries@) =~= entries_keys(before));
                }
                Some(old_value)
            },
            None => {
                entries.push((key, value));
                proof {
                    lemma_pushed_entry(before, entries@[before.len() as int]);
                    assert(entries_keys(entries@) =~= entries_keys(before).push(
                        entries@[before.len() as int].0@,
                    ));
                }
                None
            },
        };
        self.entries = entries;
        previous
    }
}

/// With distinct keys, the map gives each key the value at the key's position.
proof fn lemma_entry_is_mapped(entries: Seq<(String, serde_json::Value)>, i: int)
    requires
        keys_distinct(entries),
        0 <= i < entries.len(),
    ensures
        entries_map(entries).contains_key(entries[i].0@),
        entries_map(entries)[entries[i].0@] == entries[i].1,
{
    let key = entries[i].0@;
    assert(holds_key_at(entries, key, i));
    let chosen = choose|j: int| holds_key_at(entries, key, j);
    assert(chosen == i) by {
        if chosen < i {
            assert(entries[chosen].0@ != entries[i].0@);
        } else if i < chosen {
            assert(entries[i].0@ != entries[chosen].0@);
        }
    }
}

/// Putting an entry with the same key in the place of another sets that key's
/// value and keeps the keys distinct.
proof fn lemma_replaced_entry(
    entries: Seq<(String, serde_json::Value)>,
    i: int,
    entry: (String, serde_json::Value),
)
    requires
        keys_distinct(entries),
        0 <= i < entries.len(),
        entry.0@ == entries[i].0@,
    ensures
        keys_distinct(entries.update(i, entry)),
        entries_map(entries.update(i, entry)) == entries_map(entries).insert(entry.0@, entry.1),
{
    let after = entries.update(i, entry);
    assert(keys_distinct(after)) by {
        assert forall|a: int, b: int| 0 <= a < b < after.len() implies (#[trigger] after[a]).0@ != (
        #[trigger] after[b]).0@ by {
            assert(entries[a].0@ != entries[b].0@);
        }
    }
    let left = entries_map(after);
    let right = entries_map(entries).insert(entry.0@, entry.1);
    assert forall|key: Seq<char>| left.contains_key(key) <==> right.contains_key(key) by {
        if left.contains_key(key) {
            let j = choose|j: int| holds_key_at(after, key, j);
            assert(holds_key_at(entries, key, j));
        }
        if right.contains_key(key) {
            if key == entry.0@ {
                assert(holds_key_at(after, key, i));
            } else {
                let j = choose|j: int| holds_key_at(entries, key, j);
                assert(holds_key_at(after, key, j));
            }
        }
    }
    assert forall|key: Seq<char>| left.contains_key(key) implies left[key] == right[key] by {
        let j = choose|j: int| holds_key_at(after, key, j);
        lemma_entry_is_mapped(after, j);
        if j != i {
            assert(holds_key_at(entries, key, j));
            lemma_entry_is_mapped(entries, j);
            assert(entries[j].0@ != entries[i].0@) by {
                if j < i {
                    assert(entries[j].0@ != entries[i].0@);
                } else {
                    assert(entries[i].0@ != entries[j].0@);
                }
            }
        }
    }
    assert(left =~= right);
}

/// Putting an entry with a new key behind the others sets that key's value and
/// keeps the keys distinct.
proof fn lemma_pushed_entry(
    entries: Seq<(String, serde_json::Value)>,
    entry: (String, serde_json::Value),
)
    requires
        keys_distinct(entries),
        !entries_map(entries).contains_key(entry.0@),
    ensures
        keys_distinct(entries.push(entry)),
        entries_map(entries.push(entry)) == entries_map(entries).insert(entry.0@, entry.1),
{
    let after = entries.push(entry);
    let last = entries.len() as int;
    assert(keys_distinct(after)) by {
        assert forall|a: int, b: int| 0 <= a < b < after.len() implies (#[trigger] after[a]).0@ != (
        #[trigger] after[b]).0@ by {
            if b == last {
                assert(!holds_key_at(entries, entry.0@, a));
            } else {
                assert(entries[a].0@ != entries[b].0@);
            }
        }
    }
    let left = entries_map(after);
    let right = entries_map(entries).insert(entry.0@, entry.1);
    assert forall|key: Seq<char>| left.contains_key(key) <==> right.contains_key(key) by {
        if left.contains_key(key) {
            let j = choose|j: int| holds_key_at(after, key, j);
            if j != last {
                assert(holds_key_at(entries, key, j));
            }
        }
        if right.contains_key(key) {
            if key == entry.0@ {
                assert(holds_key_at(after, key, last));
            } else {
                let j = choose|j: int| holds_key_at(entries, key, j);
                assert(holds_key_at(after, key, j));
            }
        }
    }
    assert forall|key: Seq<char>| left.contains_key(key) implies left[key] == right[key] by {
        let j = choose|j: int| holds_key_at(after, key, j);
        lemma_entry_is_mapped(after, j);
        if j != last {
            assert(holds_key_at(entries, key, j));
            lemma_entry_is_mapped(entries, j);
        }
    }
    assert(left =~= right);
}

} // verus!
