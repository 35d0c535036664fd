//! A small map from text keys to values, kept as a list of entries.
//!
//! The settings and the ledger hold a handful of entries under text keys.
//! The map is modelled by a `Map<Seq<char>, V>`; the entry found for a key is
//! the first one in the list that carries it, and `insert` keeps at most one
//! entry per key.

use crate::text::{precedes, str_eq, text_precedes};
use vstd::prelude::*;
use vstd::string::*;

verus! {

/// One key with its value.
#[derive(Debug, Clone)]
pub struct Entry<V> {
    pub key: String,
    pub value: V,
}

/// A map from text keys to values.
#[derive(Debug, Clone)]
pub struct StringMap<V> {
    entries: Vec<Entry<V>>,
}

/// The map that a list of entries stands for: the first entry of a key
/// decides its value.
pub open spec fn entries_map<V>(entries: Seq<Entry<V>>) -> Map<Seq<char>, V>
    decreases entries.len(),
{
    if entries.len() == 0 {
        Map::empty()
    } else {
        entries_map(entries.drop_first()).insert(entries[0].key@, entries[0].value)
    }
}

/// No two entries carry the same key.
pub open spec fn distinct_keys<V>(entries: Seq<Entry<V>>) -> bool {
    forall|i: int, j: int| 0 <= i < j < entries.len() ==> entries[i].key@ != entries[j].key@
}

/// Entries before the first one that carries `key` do not decide what the
/// map holds for `key`.
pub proof fn lemma_skip_other_keys<V>(entries: Seq<Entry<V>>, key: Seq<char>, n: int)
    requires
        0 <= n <= entries.len(),
        forall|j: int| 0 <= j < n ==> (#[trigger] entries[j]).key@ != key,
    ensures
        entries_map(entries).contains_key(key) == entries_map(entries.skip(n)).contains_key(key),
        entries_map(entries).contains_key(key) ==> entries_map(entries)[key] == entries_map(
            entries.skip(n),
        )[key],
    decreases n,
{
    if n == 0 {
        assert(entries.skip(0) =~= entries);
    } else {
        let rest = entries.drop_first();
        assert forall|j: int| 0 <= j < n - 1 implies (#[trigger] rest[j]).key@ != key by {
            assert(rest[j] == entries[j + 1]);
        }
        lemma_skip_other_keys(rest, key, n - 1);
        assert(rest.skip(n - 1) =~= entries.skip(n));
        assert(entries[0].key@ != key);
    }
}

/// A new value at the first entry of `key` is an insertion under `key`.
pub proof fn lemma_update_first<V>(entries: Seq<Entry<V>>, at: int, entry: Entry<V>)
    requires
        0 <= at < entries.len(),
        entries[at].key@ == entry.key@,
        forall|j: int| 0 <= j < at ==> (#[trigger] entries[j]).key@ != entry.key@,
    ensures
        entries_map(entries.update(at, entry)) == entries_map(entries).insert(
            entry.key@,
            entry.value,
        ),
    decreases at,
{
    let updated = entries.update(at, entry);
    if at == 0 {
        assert(updated.drop_first() =~= entries.drop_first());
        assert(entries_map(updated) =~= entries_map(entries).insert(entry.key@, entry.value));
    } else {
        let rest = entries.drop_first();
        assert forall|j: int| 0 <= j < at - 1 implies (#[trigger] rest[j]).key@ != entry.key@ by {
            assert(rest[j] == entries[j + 1]);
        }
        lemma_update_first(rest, at - 1, entry);
        assert(updated.drop_first() =~= rest.update(at - 1, entry));
        assert(updated[0] == entries[0]);
        assert(entries[0].key@ != entry.key@);
        assert(entries_map(updated) =~= entries_map(entries).insert(entry.key@, entry.value));
    }
}

/// An entry added behind a list that lacks its key is an insertion.
pub proof fn lemma_push_new_key<V>(entries: Seq<Entry<V>>, entry: Entry<V>)
    requires
        forall|j: int| 0 <= j < entries.len() ==> (#[trigger] entries[j]).key@ != entry.key@,
    ensures
        entries_map(entries.push(entry)) == entries_map(entries).insert(entry.key@, entry.value),
    decreases entries.len(),
{
    let pushed = entries.push(entry);
    if entries.len() == 0 {
        assert(pushed.drop_first() =~= entries);
        assert(entries_map(pushed.drop_first()) =~= Map::empty());
    } else {
        let rest = entries.drop_first();
        assert forall|j: int| 0 <= j < rest.len() implies (#[trigger] rest[j]).key@
            != entry.key@ by {
            assert(rest[j] == entries[j + 1]);
        }
        lemma_push_new_key(rest, entry);
        assert(pushed.drop_first() =~= rest.push(entry));
        assert(pushed[0] == entries[0]);
        assert(entries[0].key@ != entry.key@);
        assert(entries_map(pushed) =~= entries_map(entries).insert(entry.key@, entry.value));
    }
}

impl<V> View for StringMap<V> {
    type V = Map<Seq<char>, V>;

    closed spec fn view(&self) -> Map<Seq<char>, V> {
        entries_map(self.entries@)
    }
}

impl<V> StringMap<V> {
    /// The map keeps one entry for each key. Every map that `new` made and
    /// `insert` and `remove_below` changed is well formed.
    pub closed spec fn wf(&self) -> bool {
        distinct_keys(self.entries@)
    }

    /// The map without entries.
    pub fn new() -> (m: StringMap<V>)
        ensures
            m@ == Map::<Seq<char>, V>::empty(),
            m.wf(),
    {
        StringMap { entries: Vec::new() }
    }

    /// The position of the first entry that carries `key`.
    fn position(&self, key: &str) -> (r: Option<usize>)
        ensures
            match r {
                Some(i) => {
                    &&& i < self.entries@.len()
                    &&& self.entries@[i as int].key@ == key@
                    &&& forall|j: int| 0 <= j < i ==> (#[trigger] self.entries@[j]).key@ != key@
                    &&& self@.contains_key(key@)
                    &&& self@[key@] == self.entries@[i as int].value
                },
                None => {
                    &&& forall|j: int|
                        0 <= j < self.entries@.len() ==> (#[trigger] self.entries@[j]).key@ != key@
                    &&& !self@.contains_key(key@)
                },
            },
    {
        let mut i: usize = 0;
        while i < self.entries.len()
            invariant
                i <= self.entries@.len(),
                forall|j: int| 0 <= j < i ==> (#[trigger] self.entries@[j]).key@ != key@,
            decreases self.entries@.len() - i,
        {
            if str_eq(self.entries[i].key.as_str(), key) {
                proof {
                    lemma_skip_other_keys(self.entries@, key@, i as int);
                    let tail = self.entries@.skip(i as int);
                    assert(tail[0] == self.entries@[i as int]);
                }
                return Some(i);
            }
            i += 1;
        }
        proof {
            lemma_skip_other_keys(self.entries@, key@, i as int);
            assert(self.entries@.skip(i as int) =~= Seq::<Entry<V>>::empty());
        }
        None
    }

    /// Whether the map holds a value for `key`.
    pub fn contains_key(&self, key: &str) -> (r: bool)
        ensures
            r == self@.contains_key(key@),
    {
        self.position(key).is_some()
    }

    /// The value for `key`, if the map holds one.
    pub fn get(&self, key: &str) -> (r: Option<&V>)
        ensures
            match r {
                Some(v) => self@.contains_key(key@) && *v == self@[key@],
                None => !self@.contains_key(key@),
            },
    {
        match self.position(key) {
            Some(i) => Some(&self.entries[i].value),
            None => None,
        }
    }

    /// Sets the value for `key`, replacing the one it had.
    pub fn insert(&mut self, key: String, value: V)
        ensures
            final(self)@ == old(self)@.insert(key@, value),
            old(self).wf() ==> final(self).wf(),
    {
        let found = self.position(key.as_str());
        let entry = Entry { key, value };
        match found {
            Some(i) => {
                proof {
                    lemma_update_first(self.entries@, i as int, entry);
                }
                self.entries.set(i, entry);
                assert(old(self).wf() ==> distinct_keys(self.entries@)) by {
                    if old(self).wf() {
                        assert forall|a: int, b: int|
                            0 <= a < b < self.entries@.len() implies self.entries@[a].key@
                            != self.entries@[b].key@ by {
                            assert(self.entries@[a].key@ == old(self).entries@[a].key@);
                            assert(self.entries@[b].key@ == old(self).entries@[b].key@);
                        }
                    }
                }
            },
            None => {
                proof {
                    lemma_push_new_key(self.entries@, entry);
                }
                self.entries.push(entry);
            },
        }
    }

    /// Drops every entry whose key comes before `cutoff` in the order of the
    /// dictionary, and says how many entries it dropped.
    pub fn remove_below(&mut self, cutoff: &str) -> (dropped: usize)
        ensures
            final(self)@ == old(self)@.remove_keys(keys_below(cutoff@)),
            old(self).wf() ==> final(self).wf() && dropped == old(self)@.len() - final(self)@.len(),
    {
        let total: usize = self.entries.len();
        let mut dropped: usize = 0;
        let mut i: usize = 0;
        while i < self.entries.len()
            invariant
                i <= self.entries@.len(),
                dropped + self.entries@.len() == total,
                total == old(self).entries@.len(),
                old(self).wf() ==> distinct_keys(self.entries@),
                entries_map(self.entries@).remove_keys(keys_below(cutoff@)) == entries_map(
                    old(self).entries@,
                ).remove_keys(keys_below(cutoff@)),
                forall|j: int|
                    0 <= j < i ==> !precedes((#[trigger] self.entries@[j]).key@, cutoff@),
            decreases self.entries@.len() - i,
        {
            if text_precedes(self.entries[i].key.as_str(), cutoff) {
                let ghost before = self.entries@;
                let _ = self.entries.remove(i);
                proof {
                    let front = before.take(i as int);
                    let back = before.skip(i + 1);
                    assert(before =~= front.push(before[i as int]) + back);
                    assert(self.entries@ =~= front + back);
                    lemma_drop_entry(front, before[i as int], back, cutoff@);
                    if old(self).wf() {
                        assert forall|a: int, b: int|
                            0 <= a < b < self.entries@.len() implies self.entries@[a].key@
                            != self.entries@[b].key@ by {
                            let x = if a < i { a } else { a + 1 };
                            let y = if b < i { b } else { b + 1 };
                            assert(self.entries@[a] == before[x]);
                            assert(self.entries@[b] == before[y]);
                        }
                    }
                }
                dropped += 1;
            } else {
                i += 1;
            }
        }
        proof {
            lemma_nothing_below(self.entries@, cutoff@);
            if old(self).wf() {
                lemma_distinct_count(old(self).entries@);
                lemma_distinct_count(self.entries@);
            }
        }
        dropped
    }

    /// The number of keys.
    pub fn len(&self) -> (n: usize)
        ensures
            self.wf() ==> self@.dom().finite() && n == self@.len(),
    {
        proof {
            if self.wf() {
                lemma_distinct_count(self.entries@);
            }
        }
        self.entries.len()
    }

    /// The entries, in the order in which their keys were first set.
    pub fn entries(&self) -> (list: &Vec<Entry<V>>)
        ensures
            entries_map(list@) == self@,
            self.wf() ==> distinct_keys(list@),
    {
        &self.entries
    }
}

/// A list of entries with distinct keys stands for a map with as many keys
/// as the list has entries.
pub proof fn lemma_distinct_count<V>(entries: Seq<Entry<V>>)
    requires
        distinct_keys(entries),
    ensures
        entries_map(entries).dom().finite(),
        entries_map(entries).len() == entries.len(),
    decreases entries.len(),
{
    if entries.len() > 0 {
        let rest = entries.drop_first();
        assert(distinct_keys(rest)) by {
            assert forall|i: int, j: int| 0 <= i < j < rest.len() implies rest[i].key@
                != rest[j].key@ by {
                assert(rest[i] == entries[i + 1]);
                assert(rest[j] == entries[j + 1]);
            }
        }
        lemma_distinct_count(rest);
        lemma_entry_keys(rest, entries[0].key@);
        assert(!entries_map(rest).dom().contains(entries[0].key@)) by {
            if entries_map(rest).contains_key(entries[0].key@) {
                let j = choose|j: int|
                    0 <= j < rest.len() && (#[trigger] rest[j]).key@ == entries[0].key@;
                assert(entries[j + 1].key@ == entries[0].key@);
            }
        }
        assert(entries_map(entries).dom() =~= entries_map(rest).dom().insert(entries[0].key@));
    }
}

/// The keys that come before `cutoff` in the order of the dictionary.
pub open spec fn keys_below(cutoff: Seq<char>) -> Set<Seq<char>> {
    Set::new(|key: Seq<char>| precedes(key, cutoff))
}

/// The keys of a map of entries are the keys of the entries.
pub proof fn lemma_entry_keys<V>(entries: Seq<Entry<V>>, key: Seq<char>)
    ensures
        entries_map(entries).contains_key(key) <==> exists|j: int|
            0 <= j < entries.len() && (#[trigger] entries[j]).key@ == key,
    decreases entries.len(),
{
    if entries.len() > 0 {
        let rest = entries.drop_first();
        lemma_entry_keys(rest, key);
        if entries_map(entries).contains_key(key) {
            if entries[0].key@ == key {
            } else {
                let j = choose|j: int| 0 <= j < rest.len() && (#[trigger] rest[j]).key@ == key;
                assert(entries[j + 1].key@ == key);
            }
        }
        if exists|j: int| 0 <= j < entries.len() && (#[trigger] entries[j]).key@ == key {
            let j = choose|j: int| 0 <= j < entries.len() && (#[trigger] entries[j]).key@ == key;
            if j > 0 {
                assert(rest[j - 1].key@ == key);
            }
        }
    }
}

/// The map of a concatenation looks a key up in the first part, and in the
/// second part where the first has no entry for it.
pub proof fn lemma_map_of_concat<V>(front: Seq<Entry<V>>, back: Seq<Entry<V>>, key: Seq<char>)
    ensures
        entries_map(front + back).contains_key(key) == (entries_map(front).contains_key(key)
            || entries_map(back).contains_key(key)),
        entries_map(front).contains_key(key) ==> entries_map(front + back)[key] == entries_map(
            front,
        )[key],
        !entries_map(front).contains_key(key) && entries_map(back).contains_key(key)
            ==> entries_map(front + back)[key] == entries_map(back)[key],
    decreases front.len(),
{
    if front.len() == 0 {
        assert(front + back =~= back);
    } else {
        let rest = front.drop_first();
        lemma_map_of_concat(rest, back, key);
        assert((front + back).drop_first() =~= rest + back);
        assert((front + back)[0] == front[0]);
    }
}

/// An entry whose key comes before the cutoff does not show in the map once
/// the keys before the cutoff are removed.
proof fn lemma_drop_entry<V>(
    front: Seq<Entry<V>>,
    entry: Entry<V>,
    back: Seq<Entry<V>>,
    cutoff: Seq<char>,
)
    requires
        precedes(entry.key@, cutoff),
    ensures
        entries_map(front.push(entry) + back).remove_keys(keys_below(cutoff)) == entries_map(
            front + back,
        ).remove_keys(keys_below(cutoff)),
{
    let middle = seq![entry] + back;
    let with_entry = entries_map(front + middle);
    let without = entries_map(front + back);
    assert(front.push(entry) + back =~= front + middle);
    assert(middle.drop_first() =~= back);
    assert(entries_map(middle) == entries_map(back).insert(entry.key@, entry.value));
    assert forall|key: Seq<char>| !keys_below(cutoff).contains(key) implies (
    with_entry.contains_key(key) == without.contains_key(key)) && (with_entry.contains_key(key)
        ==> with_entry[key] == without[key]) by {
        lemma_map_of_concat(front, middle, key);
        lemma_map_of_concat(front, back, key);
        assert(key != entry.key@);
    }
    assert(with_entry.remove_keys(keys_below(cutoff)) =~= without.remove_keys(
        keys_below(cutoff),
    ));
}

/// Where no key comes before the cutoff, removing the keys before the cutoff
/// changes nothing.
proof fn lemma_nothing_below<V>(entries: Seq<Entry<V>>, cutoff: Seq<char>)
    requires
        forall|j: int| 0 <= j < entries.len() ==> !precedes((#[trigger] entries[j]).key@, cutoff),
    ensures
        entries_map(entries).remove_keys(keys_below(cutoff)) == entries_map(entries),
{
    assert forall|key: Seq<char>| entries_map(entries).contains_key(key) implies !keys_below(
        cutoff,
    ).contains(key) by {
        lemma_entry_keys(entries, key);
    }
    assert(entries_map(entries).remove_keys(keys_below(cutoff)) =~= entries_map(entries));
}

} // verus!
