//! A mapping from text keys to values that remembers the order in which its
//! keys first arrived.

use crate::value::{DecodedValue, ValueModel};
use vstd::prelude::*;

verus! {

/// One entry of a mapping: a text key and the value stored under it.
#[derive(Debug, PartialEq)]
pub struct Field {
    pub key: String,
    pub value: DecodedValue,
}

/// A mapping from text keys to decoded values. No key occurs twice, and the
/// entries stand in the order in which their keys were first inserted.
#[derive(Debug, PartialEq)]
pub struct OrderedMap {
    entries: Vec<Field>,
}

/// The entries of `fields` as pairs, each key taken as its sequence of
/// characters.
pub open spec fn keyed(fields: Seq<Field>) -> Seq<(Seq<char>, DecodedValue)> {
    Seq::new(fields.len(), |i: int| (fields[i].key@, fields[i].value))
}

/// What each of `entries` says under its key, in the same order.
pub open spec fn entry_models(entries: Seq<(Seq<char>, DecodedValue)>) -> Seq<
    (Seq<char>, ValueModel),
> {
    Seq::new(entries.len(), |i: int| (entries[i].0, entries[i].1@))
}

/// True when no two entries of `entries` share a key.
pub open spec fn distinct_keys<V>(entries: Seq<(Seq<char>, V)>) -> bool {
    forall|i: int, j: int|
        0 <= i < j < entries.len() ==> (#[trigger] entries[i]).0 != (#[trigger] entries[j]).0
}

/// True when some entry of `entries` has the key `key`.
pub open spec fn has_key<V>(entries: Seq<(Seq<char>, V)>, key: Seq<char>) -> bool {
    exists|i: int| 0 <= i < entries.len() && (#[trigger] entries[i]).0 == key
}

/// The position of an entry with the key `key`, where there is one.
pub open spec fn index_of<V>(entries: Seq<(Seq<char>, V)>, key: Seq<char>) -> int {
    choose|i: int| 0 <= i < entries.len() && (#[trigger] entries[i]).0 == key
}

/// The value stored under `key`, if any.
pub open spec fn value_of<V>(entries: Seq<(Seq<char>, V)>, key: Seq<char>) -> Option<V> {
    if has_key(entries, key) {
        Some(entries[index_of(entries, key)].1)
    } else {
        None
    }
}

/// The entries after `value` is stored under `key`: a key already present
/// keeps its place and gets the new value, a new key goes to the end.
pub open spec fn inserted<V>(entries: Seq<(Seq<char>, V)>, key: Seq<char>, value: V) -> Seq<
    (Seq<char>, V),
> {
    if has_key(entries, key) {
        entries.update(index_of(entries, key), (key, value))
    } else {
        entries.push((key, value))
    }
}

/// Storing a value keeps the keys distinct.
pub proof fn inserted_keeps_keys_distinct<V>(
    entries: Seq<(Seq<char>, V)>,
    key: Seq<char>,
    value: V,
)
    requires
        distinct_keys(entries),
    ensures
        distinct_keys(inserted(entries, key, value)),
{
    // Every entry after the change has the key of the entry that stood at
    // its place before, but for a new last entry, whose key no entry had.
    let after = inserted(entries, key, value);
    assert forall|i: int, j: int| 0 <= i < j < after.len() implies (#[trigger] after[i]).0 != (
    #[trigger] after[j]).0 by {
        if j < entries.len() {
            assert(entries[i].0 != entries[j].0);
        }
    }
}

/// After a value is stored under a key, that key yields that value, every
/// other key yields what it did before, and the number of entries grows by
/// one exactly when the key is new.
pub proof fn inserted_then_value_of<V>(
    entries: Seq<(Seq<char>, V)>,
    key: Seq<char>,
    value: V,
    other: Seq<char>,
)
    requires
        distinct_keys(entries),
    ensures
        value_of(inserted(entries, key, value), key) == Some(value),
        other != key ==> value_of(inserted(entries, key, value), other) == value_of(entries, other),
        inserted(entries, key, value).len() == if has_key(entries, key) {
            entries.len()
        } else {
            entries.len() + 1
        },
{
    let after = inserted(entries, key, value);
    inserted_keeps_keys_distinct(entries, key, value);
    let at = if has_key(entries, key) {
        index_of(entries, key)
    } else {
        entries.len() as int
    };
    // The keys being distinct, a key is found at one place only.
    assert(after[at] == (key, value));
    assert(index_of(after, key) == at);
    if other != key && has_key(entries, other) {
        let was = index_of(entries, other);
        assert(after[was] == entries[was]);
        assert(index_of(after, other) == was);
    }
}

impl View for OrderedMap {
    type V = Seq<(Seq<char>, DecodedValue)>;

    closed spec fn view(&self) -> Seq<(Seq<char>, DecodedValue)> {
        keyed(self.entries@)
    }
}

impl OrderedMap {
    /// The invariant of the type: no key occurs twice.
    #[verifier::type_invariant]
    pub open spec fn keys_are_distinct(&self) -> bool {
        distinct_keys(self@)
    }

    /// What each entry says under its key, in the order of the entries.
    pub closed spec fn models(&self) -> Seq<(Seq<char>, ValueModel)>
        decreases self,
    {
        Seq::new(
            self.entries@.len(),
            |i: int|
                if 0 <= i < self.entries@.len() {
                    (self.entries@[i].key@, self.entries@[i].value.model())
                } else {
                    (Seq::empty(), ValueModel::Null)
                },
        )
    }

    /// The entries say what their values say: entry for entry, the key and
    /// what the value under it says.
    pub proof fn models_follow_entries(&self)
        ensures
            self.models() == entry_models(self@),
    {
        reveal_with_fuel(OrderedMap::models, 2);
    }

    /// Makes a mapping without entries.
    pub fn new() -> (map: OrderedMap)
        ensures
            map@ == Seq::<(Seq<char>, DecodedValue)>::empty(),
    {
        OrderedMap { entries: Vec::new() }
    }

    /// The number of entries.
    pub fn len(&self) -> (count: usize)
        ensures
            count == self@.len(),
            distinct_keys(self@),
    {
        proof {
            use_type_invariant(self);
        }
        self.entries.len()
    }

    /// The position of the entry stored under `key`, if there is one.
    fn position(&self, key: &str) -> (found: Option<usize>)
        ensures
            found is Some <==> has_key(self@, key@),
            found matches Some(at) ==> at < self@.len() && at == index_of(self@, key@),
    {
        proof {
            use_type_invariant(self);
        }
        let wanted = String::from_str(key);
        let mut i: usize = 0;
        while i < self.entries.len()
            invariant
                i <= self.entries.len(),
                wanted@ == key@,
                distinct_keys(self@),
                forall|j: int| 0 <= j < i ==> (#[trigger] self@[j]).0 != key@,
            decreases self.entries.len() - i,
        {
            if self.entries[i].key == wanted {
                proof {
                    // The keys being distinct, this is the one place of `key`.
                    assert(self@[i as int].0 == key@);
                    assert(index_of(self@, key@) == i);
                }
                return Some(i);
            }
            i += 1;
        }
        None
    }

    /// Stores `value` under `key`. A key already present keeps its place and
    /// gets the new value; a new key goes to the end.
    pub fn insert(&mut self, key: String, value: DecodedValue)
        ensures
            final(self)@ == inserted(old(self)@, key@, value),
            distinct_keys(final(self)@),
    {
        proof {
            use_type_invariant(&*self);
            inserted_keeps_keys_distinct(self@, key@, value);
        }
        let ghost before = self@;
        let found = self.position(key.as_str());
        let mut entries: Vec<Field> = Vec::new();
        core::mem::swap(&mut self.entries, &mut entries);
        match found {
            Some(at) => {
                entries.set(at, Field { key, value });
                assert(keyed(entries@) =~= before.update(at as int, (key@, value)));
            },
            None => {
                entries.push(Field { key, value });
                assert(keyed(entries@) =~= before.push((key@, value)));
            },
        }
        self.entries = entries;
    }

    /// The value stored under `key`, if any.
    pub fn find(&self, key: &str) -> (found: Option<&DecodedValue>)
        ensures
            match found {
                Some(value) => value_of(self@, key@) == Some(*value),
                None => value_of(self@, key@) is None,
            },
    {
        match self.position(key) {
            Some(at) => Some(&self.entries[at].value),
            None => None,
        }
    }

    /// The entry at position `at`, counted in order of first insertion.
    pub fn entry(&self, at: usize) -> (entry: Option<&Field>)
        ensures
            match entry {
                Some(field) => at < self@.len() && (field.key@, field.value) == self@[at as int],
                None => at >= self@.len(),
            },
    {
        if at < self.entries.len() {
            Some(&self.entries[at])
        } else {
            None
        }
    }

    /// Gives up the mapping for its entries, in order of first insertion.
    pub fn into_entries(self) -> (entries: Vec<Field>)
        ensures
            keyed(entries@) == self@,
            distinct_keys(keyed(entries@)),
    {
        proof {
            use_type_invariant(&self);
        }
        self.entries
    }
}

} // verus!
