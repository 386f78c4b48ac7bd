//! A map from text to values, kept in the order of its keys and searched in a
//! number of steps that grows with the logarithm of its size.

use vstd::prelude::*;
use crate::text::lemma_precedes_irreflexive;
use crate::text::lemma_precedes_transitive;
use crate::text::precedes;
use crate::text::rank_text;
use crate::text::Rank;

verus! {

/// A key with its value.
pub struct Entry<V> {
    pub key: String,
    pub value: V,
}

/// Whether the keys rise strictly along the entries. No key occurs twice
/// then.
pub open spec fn rising<V>(entries: Seq<Entry<V>>) -> bool {
    forall|i: int, j: int|
        0 <= i < j < entries.len() ==> precedes(
            (#[trigger] entries[i]).key@,
            (#[trigger] entries[j]).key@,
        )
}

/// Whether the entry at `i` has the key `key`.
pub open spec fn holds_at<V>(entries: Seq<Entry<V>>, i: int, key: Seq<char>) -> bool {
    0 <= i < entries.len() && entries[i].key@ == key
}

/// The place of an entry with the key `key`, where there is one.
pub open spec fn place_of<V>(entries: Seq<Entry<V>>, key: Seq<char>) -> int {
    choose|i: int| holds_at(entries, i, key)
}

/// The map that the entries spell out: each key leads to the value beside it.
pub open spec fn table<V>(entries: Seq<Entry<V>>) -> Map<Seq<char>, V> {
    Map::new(
        |key: Seq<char>| exists|i: int| holds_at(entries, i, key),
        |key: Seq<char>| entries[place_of(entries, key)].value,
    )
}

/// Among rising keys, a key has one place only.
pub proof fn lemma_one_place<V>(entries: Seq<Entry<V>>, i: int)
    requires
        rising(entries),
        0 <= i < entries.len(),
    ensures
        place_of(entries, entries[i].key@) == i,
        table(entries).contains_key(entries[i].key@),
        table(entries)[entries[i].key@] == entries[i].value,
{
    let key = entries[i].key@;
    assert(holds_at(entries, i, key));
    let j = place_of(entries, key);
    lemma_precedes_irreflexive(key);
    if j < i {
        assert(precedes(entries[j].key@, entries[i].key@));
    } else if i < j {
        assert(precedes(entries[i].key@, entries[j].key@));
    }
}

/// An entry put where its key belongs keeps the keys rising and adds the key
/// with its value to the map.
pub proof fn lemma_put_in<V>(entries: Seq<Entry<V>>, at: int, entry: Entry<V>)
    requires
        rising(entries),
        0 <= at <= entries.len(),
        forall|j: int| 0 <= j < at ==> precedes((#[trigger] entries[j]).key@, entry.key@),
        forall|j: int| at <= j < entries.len() ==> precedes(entry.key@, (#[trigger] entries[j]).key@),
    ensures
        rising(entries.insert(at, entry)),
        !table(entries).contains_key(entry.key@),
        table(entries.insert(at, entry)) == table(entries).insert(entry.key@, entry.value),
{
    let after = entries.insert(at, entry);
    assert forall|i: int, j: int| 0 <= i < j < after.len() implies precedes(
        (#[trigger] after[i]).key@,
        (#[trigger] after[j]).key@,
    ) by {
        let a = if i < at { i } else { i - 1 };
        let b = if j < at { j } else { j - 1 };
        if i != at {
            assert(after[i] == entries[a]);
        }
        if j != at {
            assert(after[j] == entries[b]);
        }
    }
    lemma_precedes_irreflexive(entry.key@);
    assert forall|key: Seq<char>|
        table(after).contains_key(key) <==> #[trigger] table(entries).insert(
            entry.key@,
            entry.value,
        ).contains_key(key) by {
        if table(after).contains_key(key) {
            let k = choose|k: int| holds_at(after, k, key);
            if k < at {
                assert(holds_at(entries, k, key));
            } else if k > at {
                assert(holds_at(entries, k - 1, key));
            }
        }
        if table(entries).contains_key(key) {
            let i = choose|i: int| holds_at(entries, i, key);
            let k = if i < at { i } else { i + 1 };
            assert(holds_at(after, k, key));
        }
        if key == entry.key@ {
            assert(holds_at(after, at, key));
        }
    }
    assert forall|key: Seq<char>| #[trigger] table(after).contains_key(key) implies table(
        after,
    )[key] == table(entries).insert(entry.key@, entry.value)[key] by {
        let k = choose|k: int| holds_at(after, k, key);
        lemma_one_place(after, k);
        if k < at {
            assert(after[k] == entries[k]);
            lemma_one_place(entries, k);
        } else if k > at {
            assert(after[k] == entries[k - 1]);
            lemma_one_place(entries, k - 1);
        }
    }
    assert(table(after) =~= table(entries).insert(entry.key@, entry.value));
}

/// A new value beside a key leaves the keys as they are and leads the key to
/// the new value.
pub proof fn lemma_put_over<V>(entries: Seq<Entry<V>>, at: int, entry: Entry<V>)
    requires
        rising(entries),
        0 <= at < entries.len(),
        entries[at].key@ == entry.key@,
    ensures
        rising(entries.update(at, entry)),
        table(entries.update(at, entry)) == table(entries).insert(entry.key@, entry.value),
{
    let after = entries.update(at, entry);
    assert(after.len() == entries.len());
    assert forall|i: int, j: int| 0 <= i < j < after.len() implies precedes(
        (#[trigger] after[i]).key@,
        (#[trigger] after[j]).key@,
    ) by {
        assert(after[i].key@ == entries[i].key@);
        assert(after[j].key@ == entries[j].key@);
    }
    assert forall|key: Seq<char>|
        table(after).contains_key(key) <==> #[trigger] table(entries).insert(
            entry.key@,
            entry.value,
        ).contains_key(key) by {
        if table(after).contains_key(key) {
            let k = choose|k: int| holds_at(after, k, key);
            assert(holds_at(entries, k, key));
        }
        if table(entries).contains_key(key) {
            let k = choose|k: int| holds_at(entries, k, key);
            assert(holds_at(after, k, key));
        }
        if key == entry.key@ {
            assert(holds_at(after, at, key));
        }
    }
    assert forall|key: Seq<char>| #[trigger] table(after).contains_key(key) implies table(
        after,
    )[key] == table(entries).insert(entry.key@, entry.value)[key] by {
        let k = choose|k: int| holds_at(after, k, key);
        lemma_one_place(after, k);
        lemma_one_place(entries, at);
        if k != at {
            assert(after[k] == entries[k]);
            lemma_one_place(entries, k);
        } else {
            assert(after[at] == entry);
        }
    }
    assert(table(after) =~= table(entries).insert(entry.key@, entry.value));
}

/// Where `entries` holds `key`, or else where it belongs: after all lesser
/// keys and before all greater.
fn locate<V>(entries: &Vec<Entry<V>>, key: &str) -> (place: Result<usize, usize>)
    requires
        rising(entries@),
    ensures
        match place {
            Ok(at) => holds_at(entries@, at as int, key@),
            Err(at) => at <= entries.len() && (forall|j: int|
                0 <= j < at ==> precedes((#[trigger] entries@[j]).key@, key@)) && (forall|j: int|
                at <= j < entries.len() ==> precedes(key@, (#[trigger] entries@[j]).key@)),
        },
{
    let mut low: usize = 0;
    let mut high: usize = entries.len();
    while low < high
        invariant
            low <= high <= entries.len(),
            rising(entries@),
            forall|j: int| 0 <= j < low ==> precedes((#[trigger] entries@[j]).key@, key@),
            forall|j: int| high <= j < entries.len() ==> precedes(key@, (#[trigger] entries@[j]).key@),
        decreases high - low,
    {
        let middle = low + (high - low) / 2;
        match rank_text(entries[middle].key.as_str(), key) {
            Rank::Same => {
                return Ok(middle);
            },
            Rank::Before => {
                proof {
                    assert forall|j: int| 0 <= j < middle + 1 implies precedes(
                        (#[trigger] entries@[j]).key@,
                        key@,
                    ) by {
                        if j < middle {
                            lemma_precedes_transitive(
                                entries@[j].key@,
                                entries@[middle as int].key@,
                                key@,
                            );
                        }
                    }
                }
                low = middle + 1;
            },
            Rank::After => {
                proof {
                    assert forall|j: int| middle <= j < entries.len() implies precedes(
                        key@,
                        (#[trigger] entries@[j]).key@,
                    ) by {
                        if middle < j {
                            lemma_precedes_transitive(
                                key@,
                                entries@[middle as int].key@,
                                entries@[j].key@,
                            );
                        }
                    }
                }
                high = middle;
            },
        }
    }
    Err(low)
}

/// A map from text to values of `V`.
pub struct TextMap<V> {
    entries: Vec<Entry<V>>,
}

impl<V> View for TextMap<V> {
    type V = Map<Seq<char>, V>;

    closed spec fn view(&self) -> Map<Seq<char>, V> {
        table(self.entries@)
    }
}

impl<V> TextMap<V> {
    #[verifier::type_invariant]
    spec fn well_formed(&self) -> bool {
        rising(self.entries@)
    }

    /// The map without keys.
    pub fn new() -> (map: TextMap<V>)
        ensures
            map@ == Map::<Seq<char>, V>::empty(),
    {
        let map = TextMap { entries: Vec::new() };
        assert(map@ =~= Map::<Seq<char>, V>::empty());
        map
    }

    /// The value under `key`, if the map holds the key.
    pub fn get(&self, key: &str) -> (value: Option<&V>)
        ensures
            match value {
                Some(found) => self@.contains_key(key@) && self@[key@] == *found,
                None => !self@.contains_key(key@),
            },
    {
        proof {
            use_type_invariant(self);
        }
        match locate(&self.entries, key) {
            Ok(at) => {
                proof {
                    lemma_one_place(self.entries@, at as int);
                }
                Some(&self.entries[at].value)
            },
            Err(_) => {
                proof {
                    lemma_precedes_irreflexive(key@);
                }
                None
            },
        }
    }

    /// Whether the map holds `key`.
    pub fn contains_key(&self, key: &str) -> (held: bool)
        ensures
            held == self@.contains_key(key@),
    {
        self.get(key).is_some()
    }

    /// Puts `value` under `key`, in the place of the value that was there, if
    /// one was.
    pub fn insert(&mut self, key: String, value: V)
        ensures
            final(self)@ == old(self)@.insert(key@, value),
    {
        proof {
            use_type_invariant(&*self);
        }
        let mut entries: Vec<Entry<V>> = Vec::new();
        std::mem::swap(&mut self.entries, &mut entries);
        let ghost before = entries@;
        let entry = Entry { key, value };
        match locate(&entries, entry.key.as_str()) {
            Ok(at) => {
                proof {
                    lemma_put_over(before, at as int, entry);
                }
                entries.set(at, entry);
            },
            Err(at) => {
                proof {
                    lemma_put_in(before, at as int, entry);
                }
                entries.insert(at, entry);
            },
        }
        std::mem::swap(&mut self.entries, &mut entries);
    }
}

} // verus!
