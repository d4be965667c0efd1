//! A string-keyed map with at most one value per key: the protocol's
//! key-value form, shared by S3 object metadata and HTTP headers.
use vstd::prelude::*;

use crate::text::same_text;

verus! {

/// Whether no two entries share a key.
pub open spec fn keys_distinct(entries: Seq<(String, String)>) -> bool {
    forall|i: int, j: int|
        0 <= i < entries.len() && 0 <= j < entries.len() && i != j ==> #[trigger] entries[i].0@
            != #[trigger] entries[j].0@
}

/// Whether some entry has the key `k`.
pub open spec fn has_key(entries: Seq<(String, String)>, k: Seq<char>) -> bool {
    exists|i: int| 0 <= i < entries.len() && #[trigger] entries[i].0@ == k
}

/// The map that a list of entries with distinct keys stands for.
pub open spec fn entries_map(entries: Seq<(String, String)>) -> Map<Seq<char>, Seq<char>> {
    Map::new(
        |k: Seq<char>| has_key(entries, k),
        |k: Seq<char>| entries[choose|i: int| 0 <= i < entries.len() && entries[i].0@ == k].1@,
    )
}

/// Under distinct keys, the map holds each entry's value under its key.
pub proof fn lemma_entries_map_at(entries: Seq<(String, String)>, i: int)
    requires
        keys_distinct(entries),
        0 <= i < entries.len(),
    ensures
        entries_map(entries).contains_key(entries[i].0@),
        entries_map(entries)[entries[i].0@] == entries[i].1@,
{
    let k = entries[i].0@;
    assert(has_key(entries, k));
    let j = choose|j: int| 0 <= j < entries.len() && entries[j].0@ == k;
    assert(j == i);
}

/// A string-keyed map. Each key occurs at most once.
pub struct KeyValues {
    pub(crate) entries: Vec<(String, String)>,
}

impl View for KeyValues {
    type V = Map<Seq<char>, Seq<char>>;

    closed spec fn view(&self) -> Map<Seq<char>, Seq<char>> {
        entries_map(self.entries@)
    }
}

impl KeyValues {
    #[verifier::type_invariant]
    closed spec fn keys_are_distinct(self) -> bool {
        keys_distinct(self.entries@)
    }

    /// An empty map.
    pub fn new() -> (r: Self)
        ensures
            r@ == Map::<Seq<char>, Seq<char>>::empty(),
    {
        let r = KeyValues { entries: Vec::new() };
        assert(r@ =~= Map::<Seq<char>, Seq<char>>::empty());
        r
    }

    /// The index of the entry with `key`, if there is one.
    fn position(&self, key: &str) -> (r: Option<usize>)
        ensures
            match r {
                Some(i) => i < self.entries@.len() && self.entries@[i as int].0@ == key@,
                None => !has_key(self.entries@, key@),
            },
    {
        let mut i: usize = 0;
        while i < self.entries.len()
            invariant
                i <= self.entries@.len(),
                forall|j: int| 0 <= j < i ==> self.entries@[j].0@ != key@,
            decreases self.entries.len() - i,
        {
            if same_text(self.entries[i].0.as_str(), key) {
                return Some(i);
            }
            i = i + 1;
        }
        None
    }

    /// The value stored under `key`.
    pub fn get(&self, key: &str) -> (r: Option<&String>)
        ensures
            match r {
                Some(v) => self@.contains_key(key@) && self@[key@] == v@,
                None => !self@.contains_key(key@),
            },
    {
        proof {
            use_type_invariant(self);
        }
        match self.position(key) {
            Some(i) => {
                proof {
                    lemma_entries_map_at(self.entries@, i as int);
                }
                Some(&self.entries[i].1)
            },
            None => None,
        }
    }

    /// Removes `key`, returning the value it held.
    pub fn remove(&mut self, key: &str) -> (r: Option<String>)
        ensures
            final(self)@ == old(self)@.remove(key@),
            match r {
                Some(v) => old(self)@.contains_key(key@) && old(self)@[key@] == v@,
                None => !old(self)@.contains_key(key@),
            },
    {
        proof {
            use_type_invariant(&*self);
        }
        match self.position(key) {
            Some(i) => {
                let ghost before = self.entries@;
                proof {
                    lemma_entries_map_at(before, i as int);
                }
                let mut entries: Vec<(String, String)> = Vec::new();
                std::mem::swap(&mut entries, &mut self.entries);
                let (_, value) = entries.remove(i);
                assert(entries@ =~= before.remove(i as int));
                proof {
                    lemma_remove_entry(before, i as int);
                }
                self.entries = entries;
                Some(value)
            },
            None => {
                assert(old(self)@ =~= old(self)@.remove(key@));
                None
            },
        }
    }

    /// Stores `value` under `key`, returning the value `key` held before.
    pub fn insert(&mut self, key: String, value: String) -> (r: Option<String>)
        ensures
            final(self)@ == old(self)@.insert(key@, value@),
            match r {
                Some(v) => old(self)@.contains_key(key@) && old(self)@[key@] == v@,
                None => !old(self)@.contains_key(key@),
            },
    {
        let previous = self.remove(key.as_str());
        proof {
            use_type_invariant(&*self);
        }
        let ghost before = self.entries@;
        assert(!has_key(before, key@)) by {
            assert(!self@.contains_key(key@));
        }
        let ghost k = key@;
        let ghost v = value@;
        let mut entries: Vec<(String, String)> = Vec::new();
        std::mem::swap(&mut entries, &mut self.entries);
        entries.push((key, value));
        assert(entries@.drop_last() =~= before);
        proof {
            lemma_push_entry(before, entries@, k, v);
        }
        self.entries = entries;
        previous
    }

    /// The entries, each key once, in no particular order.
    pub fn into_entries(self) -> (r: Vec<(String, String)>)
        ensures
            keys_distinct(r@),
            entries_map(r@) == self@,
    {
        proof {
            use_type_invariant(&self);
        }
        self.entries
    }
}

proof fn lemma_remove_entry(before: Seq<(String, String)>, i: int)
    requires
        keys_distinct(before),
        0 <= i < before.len(),
    ensures
        keys_distinct(before.remove(i)),
        entries_map(before.remove(i)) =~= entries_map(before).remove(before[i].0@),
{
    let after = before.remove(i);
    let removed = before[i].0@;
    assert forall|a: int, b: int|
        0 <= a < after.len() && 0 <= b < after.len() && a != b implies #[trigger] after[a].0@
        != #[trigger] after[b].0@ by {
        let a2 = if a < i { a } else { a + 1 };
        let b2 = if b < i { b } else { b + 1 };
        assert(after[a] == before[a2]);
        assert(after[b] == before[b2]);
    }
    assert forall|k: Seq<char>| #[trigger]
        has_key(after, k) == (has_key(before, k) && k != removed) by {
        if has_key(after, k) {
            let a = choose|a: int| 0 <= a < after.len() && after[a].0@ == k;
            let a2 = if a < i { a } else { a + 1 };
            assert(after[a] == before[a2]);
            assert(a2 != i);
        }
        if has_key(before, k) && k != removed {
            let b = choose|b: int| 0 <= b < before.len() && before[b].0@ == k;
            assert(b != i);
            let a = if b < i { b } else { b - 1 };
            assert(after[a] == before[b]);
        }
    }
    assert forall|k: Seq<char>| #[trigger] entries_map(after).contains_key(k) implies entries_map(
        after,
    )[k] == entries_map(before)[k] by {
        let a = choose|a: int| 0 <= a < after.len() && after[a].0@ == k;
        let a2 = if a < i { a } else { a + 1 };
        assert(after[a] == before[a2]);
        lemma_entries_map_at(after, a);
        lemma_entries_map_at(before, a2);
    }
}

proof fn lemma_push_entry(
    before: Seq<(String, String)>,
    after: Seq<(String, String)>,
    k: Seq<char>,
    v: Seq<char>,
)
    requires
        keys_distinct(before),
        !has_key(before, k),
        after.len() == before.len() + 1,
        after.drop_last() == before,
        after.last().0@ == k,
        after.last().1@ == v,
    ensures
        keys_distinct(after),
        entries_map(after) =~= entries_map(before).insert(k, v),
{
    let n = before.len() as int;
    assert forall|a: int| 0 <= a < n implies #[trigger] after[a] == before[a] by {
        assert(after.drop_last()[a] == after[a]);
    }
    assert forall|a: int, b: int|
        0 <= a < after.len() && 0 <= b < after.len() && a != b implies #[trigger] after[a].0@
        != #[trigger] after[b].0@ by {
        if a < n && b < n {
        } else if a == n {
            assert(!(before[b].0@ == k));
        } else {
            assert(!(before[a].0@ == k));
        }
    }
    assert forall|key: Seq<char>| #[trigger]
        has_key(after, key) == (has_key(before, key) || key == k) by {
        if has_key(after, key) {
            let a = choose|a: int| 0 <= a < after.len() && after[a].0@ == key;
            if a < n {
                assert(before[a].0@ == key);
            }
        }
        if has_key(before, key) {
            let b = choose|b: int| 0 <= b < before.len() && before[b].0@ == key;
            assert(after[b].0@ == key);
        }
        if key == k {
            assert(after[n].0@ == key);
        }
    }
    assert forall|key: Seq<char>| #[trigger] entries_map(after).contains_key(key) implies entries_map(
        after,
    )[key] == entries_map(before).insert(k, v)[key] by {
        let a = choose|a: int| 0 <= a < after.len() && after[a].0@ == key;
        lemma_entries_map_at(after, a);
        if a < n {
            lemma_entries_map_at(before, a);
        }
    }
}

} // verus!
