//! A small key-value table.

use vstd::prelude::*;
use crate::account::AccountId;

verus! {

/// A key of a [`Table`]: a plain value whose executable comparison agrees
/// with mathematical equality.
pub trait Key: Copy {
    /// Whether `self` and `other` are the same key.
    fn same(&self, other: &Self) -> (r: bool)
        ensures
            r == (*self == *other),
    ;
}

impl Key for u64 {
    fn same(&self, other: &u64) -> (r: bool) {
        *self == *other
    }
}

impl Key for AccountId {
    fn same(&self, other: &AccountId) -> (r: bool) {
        *self == *other
    }
}

/// Whether `i` is the first position in `entries` that holds `key`.
spec fn first_at<K, V>(entries: Seq<(K, V)>, key: K, i: int) -> bool {
    &&& 0 <= i < entries.len()
    &&& entries[i].0 == key
    &&& forall|j: int| 0 <= j < i ==> entries[j].0 != key
}

/// The map that a list of entries stands for: a key is present where some
/// entry holds it, and its value is that of the first such entry.
spec fn entries_map<K, V>(entries: Seq<(K, V)>) -> Map<K, V> {
    Map::new(
        |k: K| exists|i: int| first_at(entries, k, i),
        |k: K| entries[choose|i: int| first_at(entries, k, i)].1,
    )
}

/// A key has at most one first position.
proof fn lemma_first_at_unique<K, V>(entries: Seq<(K, V)>, key: K, i: int, j: int)
    requires
        first_at(entries, key, i),
        first_at(entries, key, j),
    ensures
        i == j,
{
}

/// What [`entries_map`] holds for a key whose first position is known.
proof fn lemma_entries_map_at<K, V>(entries: Seq<(K, V)>, key: K, i: int)
    requires
        first_at(entries, key, i),
    ensures
        entries_map(entries).contains_key(key),
        entries_map(entries)[key] == entries[i].1,
{
    let c = choose|c: int| first_at(entries, key, c);
    lemma_first_at_unique(entries, key, i, c);
}

/// Keys other than `key` keep their first position, and so their value,
/// between two lists that agree on every entry that does not hold `key`.
proof fn lemma_other_keys_kept<K, V>(before: Seq<(K, V)>, after: Seq<(K, V)>, key: K, k: K)
    requires
        k != key,
        before.len() <= after.len(),
        forall|j: int| 0 <= j < before.len() && before[j].0 != key ==> after[j] == before[j],
        forall|j: int| 0 <= j < before.len() && before[j].0 == key ==> after[j].0 == key,
        forall|j: int| before.len() <= j < after.len() ==> after[j].0 == key,
    ensures
        entries_map(after).contains_key(k) == entries_map(before).contains_key(k),
        entries_map(before).contains_key(k) ==> entries_map(after)[k] == entries_map(before)[k],
{
    if entries_map(before).contains_key(k) {
        let c = choose|c: int| first_at(before, k, c);
        assert(first_at(after, k, c)) by {
            assert forall|j: int| 0 <= j < c implies after[j].0 != k by {
                if before[j].0 == key {
                } else {
                }
            }
        }
        lemma_entries_map_at(after, k, c);
    }
    if entries_map(after).contains_key(k) {
        let c = choose|c: int| first_at(after, k, c);
        assert(first_at(before, k, c)) by {
            assert(c < before.len());
            assert(before[c].0 != key);
            assert forall|j: int| 0 <= j < c implies before[j].0 != k by {
                if before[j].0 == key {
                } else {
                    assert(after[j] == before[j]);
                }
            }
        }
        lemma_entries_map_at(before, k, c);
    }
}

/// Replacing the first entry of a key gives the key its new value and
/// leaves the other keys alone.
proof fn lemma_replace_first<K, V>(entries: Seq<(K, V)>, key: K, value: V, i: int)
    requires
        first_at(entries, key, i),
    ensures
        entries_map(entries.update(i, (key, value))) == entries_map(entries).insert(key, value),
{
    let after = entries.update(i, (key, value));
    assert(first_at(after, key, i));
    lemma_entries_map_at(after, key, i);
    let expected = entries_map(entries).insert(key, value);
    assert forall|k: K| #[trigger]
        entries_map(after).dom().contains(k) == expected.dom().contains(k) by {
        if k != key {
            lemma_other_keys_kept(entries, after, key, k);
        }
    }
    assert forall|k: K| entries_map(after).dom().contains(k) implies #[trigger] entries_map(
        after,
    )[k] == expected[k] by {
        if k != key {
            lemma_other_keys_kept(entries, after, key, k);
        }
    }
    assert(entries_map(after) =~= expected);
}

/// Appending an entry for a key that had none adds the key and leaves the
/// other keys alone.
proof fn lemma_append_new<K, V>(entries: Seq<(K, V)>, key: K, value: V)
    requires
        forall|j: int| 0 <= j < entries.len() ==> entries[j].0 != key,
    ensures
        entries_map(entries.push((key, value))) == entries_map(entries).insert(key, value),
{
    let after = entries.push((key, value));
    assert(first_at(after, key, entries.len() as int));
    lemma_entries_map_at(after, key, entries.len() as int);
    let expected = entries_map(entries).insert(key, value);
    assert forall|k: K| #[trigger]
        entries_map(after).dom().contains(k) == expected.dom().contains(k) by {
        if k != key {
            lemma_other_keys_kept(entries, after, key, k);
        }
    }
    assert forall|k: K| entries_map(after).dom().contains(k) implies #[trigger] entries_map(
        after,
    )[k] == expected[k] by {
        if k != key {
            lemma_other_keys_kept(entries, after, key, k);
        }
    }
    assert(entries_map(after) =~= expected);
}

/// A finite map from keys to values, kept as a list of entries.
///
/// The view of a table is the mathematical map that it stands for. A key
/// that has no entry is absent from the map.
pub struct Table<K: Key, V: Copy> {
    entries: Vec<(K, V)>,
}

impl<K: Key, V: Copy> View for Table<K, V> {
    type V = Map<K, V>;

    closed spec fn view(&self) -> Map<K, V> {
        entries_map(self.entries@)
    }
}

impl<K: Key, V: Copy> Table<K, V> {
    /// The empty table.
    pub fn new() -> (table: Self)
        ensures
            table@ == Map::<K, V>::empty(),
    {
        let table = Table { entries: Vec::new() };
        assert(table@ =~= Map::<K, V>::empty());
        table
    }

    /// The first position that holds `key`, if there is one.
    fn position(&self, key: K) -> (found: Option<usize>)
        ensures
            match found {
                Some(i) => first_at(self.entries@, key, i as int),
                None => forall|j: int| 0 <= j < self.entries@.len() ==> self.entries@[j].0 != key,
            },
    {
        let mut i: usize = 0;
        while i < self.entries.len()
            invariant
                i <= self.entries@.len(),
                forall|j: int| 0 <= j < i ==> self.entries@[j].0 != key,
            decreases self.entries@.len() - i,
        {
            if self.entries[i].0.same(&key) {
                return Some(i);
            }
            i += 1;
        }
        None
    }

    /// The value stored for `key`, or `None` where the key has no entry.
    pub fn get(&self, key: K) -> (found: Option<V>)
        ensures
            found == (if self@.contains_key(key) {
                Some(self@[key])
            } else {
                None::<V>
            }),
    {
        match self.position(key) {
            Some(i) => {
                proof {
                    lemma_entries_map_at(self.entries@, key, i as int);
                }
                Some(self.entries[i].1)
            },
            None => None,
        }
    }

    /// Stores `value` for `key`, replacing the value that the key had.
    pub fn insert(&mut self, key: K, value: V)
        ensures
            final(self)@ == old(self)@.insert(key, value),
    {
        match self.position(key) {
            Some(i) => {
                proof {
                    lemma_replace_first(self.entries@, key, value, i as int);
                }
                self.entries[i] = (key, value);
            },
            None => {
                proof {
                    lemma_append_new(self.entries@, key, value);
                }
                self.entries.push((key, value));
            },
        }
    }
}

} // verus!
