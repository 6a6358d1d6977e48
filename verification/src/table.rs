//! A small lookup table for keys that are raw bytes.

use vstd::prelude::*;

use crate::identity::Key;

verus! {

/// What a list of entries says: each key is bound to the value of the first
/// entry that has it.
spec fn lookup<K, V>(entries: Seq<(K, V)>) -> Map<K, V>
    decreases entries.len(),
{
    if entries.len() == 0 {
        Map::empty()
    } else {
        lookup(entries.drop_first()).insert(entries[0].0, entries[0].1)
    }
}

/// A map from keys to values, held as a list that is searched from the front.
pub struct Table<K, V> {
    entries: Vec<(K, V)>,
}

impl<K, V> View for Table<K, V> {
    type V = Map<K, V>;

    closed spec fn view(&self) -> Map<K, V> {
        lookup(self.entries@)
    }
}

/// A key is bound exactly when some entry has it.
proof fn lemma_lookup_dom<K, V>(entries: Seq<(K, V)>, key: K)
    ensures
        lookup(entries).contains_key(key) <==> exists|i: int|
            0 <= i < entries.len() && (#[trigger] entries[i]).0 == key,
    decreases entries.len(),
{
    if entries.len() > 0 {
        let rest = entries.drop_first();
        lemma_lookup_dom(rest, key);
        if lookup(rest).contains_key(key) {
            let i = choose|i: int| 0 <= i < rest.len() && (#[trigger] rest[i]).0 == key;
            assert(entries[i + 1].0 == key);
        }
        if exists|i: int| 0 <= i < entries.len() && (#[trigger] entries[i]).0 == key {
            let i = choose|i: int| 0 <= i < entries.len() && (#[trigger] entries[i]).0 == key;
            if i > 0 {
                assert(rest[i - 1].0 == key);
            }
        }
    }
}

/// The first entry with a key gives its value, and overwriting that entry
/// rebinds the key and nothing else.
proof fn lemma_lookup_first<K, V>(entries: Seq<(K, V)>, i: int, value: V)
    requires
        0 <= i < entries.len(),
        forall|j: int| 0 <= j < i ==> (#[trigger] entries[j]).0 != entries[i].0,
    ensures
        lookup(entries).contains_key(entries[i].0),
        lookup(entries)[entries[i].0] == entries[i].1,
        lookup(entries.update(i, (entries[i].0, value))) == lookup(entries).insert(
            entries[i].0,
            value,
        ),
    decreases entries.len(),
{
    let rest = entries.drop_first();
    let updated = entries.update(i, (entries[i].0, value));
    if i == 0 {
        assert(updated.drop_first() =~= rest);
        assert(lookup(updated) =~= lookup(entries).insert(entries[i].0, value));
    } else {
        assert(entries[0].0 != entries[i].0);
        assert(rest[i - 1] == entries[i]);
        assert forall|j: int| 0 <= j < i - 1 implies (#[trigger] rest[j]).0 != rest[i - 1].0 by {
            assert(rest[j] == entries[j + 1]);
        }
        lemma_lookup_first(rest, i - 1, value);
        assert(updated.drop_first() =~= rest.update(i - 1, (rest[i - 1].0, value)));
        assert(lookup(updated) =~= lookup(entries).insert(entries[i].0, value));
    }
}

/// Adding an entry for a key that no entry has binds that key.
proof fn lemma_lookup_push<K, V>(entries: Seq<(K, V)>, key: K, value: V)
    requires
        forall|j: int| 0 <= j < entries.len() ==> (#[trigger] entries[j]).0 != key,
    ensures
        lookup(entries.push((key, value))) == lookup(entries).insert(key, value),
    decreases entries.len(),
{
    let pushed = entries.push((key, value));
    if entries.len() == 0 {
        assert(pushed.drop_first() =~= entries);
        assert(lookup(pushed) =~= lookup(entries).insert(key, value));
    } else {
        let rest = entries.drop_first();
        assert forall|j: int| 0 <= j < rest.len() implies (#[trigger] rest[j]).0 != key by {
            assert(rest[j] == entries[j + 1]);
        }
        lemma_lookup_push(rest, key, value);
        assert(pushed.drop_first() =~= rest.push((key, value)));
        assert(entries[0].0 != key);
        assert(lookup(pushed) =~= lookup(entries).insert(key, value));
    }
}

/// A list binds no more keys than it has entries.
proof fn lemma_lookup_len<K, V>(entries: Seq<(K, V)>)
    ensures
        lookup(entries).dom().finite(),
        lookup(entries).dom().len() <= entries.len(),
    decreases entries.len(),
{
    if entries.len() > 0 {
        lemma_lookup_len(entries.drop_first());
        assert(lookup(entries).dom() =~= lookup(entries.drop_first()).dom().insert(entries[0].0));
    }
}

impl<K: Key, V: Copy> Table<K, V> {
    /// An empty table.
    pub fn new() -> (r: Self)
        ensures
            r@ == Map::<K, V>::empty(),
    {
        Table { entries: Vec::new() }
    }

    /// The value bound to `key`, if there is one.
    pub fn get(&self, key: K) -> (r: Option<V>)
        ensures
            r == (if self@.contains_key(key) {
                Some(self@[key])
            } else {
                None
            }),
    {
        let mut i: usize = 0;
        while i < self.entries.len()
            invariant
                i <= self.entries.len(),
                forall|j: int| 0 <= j < i ==> (#[trigger] self.entries@[j]).0 != key,
            decreases self.entries.len() - i,
        {
            let (k, v) = self.entries[i];
            if k.same(&key) {
                proof {
                    lemma_lookup_first(self.entries@, i as int, v);
                }
                return Some(v);
            }
            i += 1;
        }
        proof {
            lemma_lookup_dom(self.entries@, key);
        }
        None
    }

    /// Binds `key` to `value`, in place of what it was bound to before.
    pub fn insert(&mut self, key: K, value: V)
        ensures
            final(self)@ == old(self)@.insert(key, value),
    {
        let mut i: usize = 0;
        while i < self.entries.len()
            invariant
                self.entries@ == old(self).entries@,
                i <= self.entries.len(),
                forall|j: int| 0 <= j < i ==> (#[trigger] self.entries@[j]).0 != key,
            decreases self.entries.len() - i,
        {
            let (k, _) = self.entries[i];
            if k.same(&key) {
                proof {
                    lemma_lookup_first(self.entries@, i as int, value);
                }
                self.entries.set(i, (key, value));
                return;
            }
            i += 1;
        }
        proof {
            lemma_lookup_push(self.entries@, key, value);
        }
        self.entries.push((key, value));
    }

    /// A table binds finitely many keys, no more than a `usize` can count.
    pub proof fn lemma_size(&self)
        ensures
            self@.dom().finite(),
            self@.dom().len() <= usize::MAX,
    {
        lemma_lookup_len(self.entries@);
        assert(self.entries@.len() == self.entries.len());
    }
}

} // verus!
