//! The key/value notes that accompany a segment's two display strings.

use vstd::prelude::*;

verus! {

/// One note: a key and the text recorded under it.
#[derive(Clone, Debug)]
pub struct Entry {
    pub key: String,
    pub value: String,
}

/// A small map from text keys to text values, kept as a list of entries in
/// which no key occurs twice.
#[derive(Debug)]
pub struct Metadata {
    entries: Vec<Entry>,
}

/// Whether no two entries of the list share a key.
pub open spec fn distinct_keys(entries: Seq<Entry>) -> bool {
    forall|i: int, j: int|
        0 <= i < j < entries.len() ==> (#[trigger] entries[i]).key@ != (#[trigger] entries[j]).key@
}

/// Whether some entry of the list has the key `key`.
pub open spec fn has_key(entries: Seq<Entry>, key: Seq<char>) -> bool {
    exists|i: int| 0 <= i < entries.len() && (#[trigger] entries[i]).key@ == key
}

/// The position of an entry with the key `key`.
pub open spec fn position_of(entries: Seq<Entry>, key: Seq<char>) -> int {
    choose|i: int| 0 <= i < entries.len() && (#[trigger] entries[i]).key@ == key
}

/// The map that a list of entries with distinct keys stands for.
pub open spec fn map_of(entries: Seq<Entry>) -> Map<Seq<char>, Seq<char>> {
    Map::new(
        |key: Seq<char>| has_key(entries, key),
        |key: Seq<char>| entries[position_of(entries, key)].value@,
    )
}

impl View for Metadata {
    type V = Map<Seq<char>, Seq<char>>;

    closed spec fn view(&self) -> Map<Seq<char>, Seq<char>> {
        map_of(self.entries@)
    }
}

impl Metadata {
    #[verifier::type_invariant]
    spec fn well_formed(self) -> bool {
        distinct_keys(self.entries@)
    }

    /// A map without entries.
    pub fn new() -> (metadata: Metadata)
        ensures
            metadata@ == Map::<Seq<char>, Seq<char>>::empty(),
    {
        let metadata = Metadata { entries: Vec::new() };
        assert(metadata@ =~= Map::<Seq<char>, Seq<char>>::empty());
        metadata
    }

    /// How many keys the map holds.
    pub fn len(&self) -> (n: usize)
        ensures
            n == self@.dom().len(),
            self@.dom().finite(),
    {
        proof {
            use_type_invariant(self);
            lemma_domain_size(self.entries@);
        }
        self.entries.len()
    }

    /// Where the key stands among the entries, if it is there.
    fn find(&self, key: &String) -> (found: Option<usize>)
        ensures
            match found {
                Some(i) => i < self.entries.len() && self.entries[i as int].key@ == key@,
                None => !has_key(self.entries@, key@),
            },
    {
        let mut i: usize = 0;
        while i < self.entries.len()
            invariant
                i <= self.entries.len(),
                forall|j: int| 0 <= j < i ==> (#[trigger] self.entries[j]).key@ != key@,
            decreases self.entries.len() - i,
        {
            if self.entries[i].key == *key {
                return Some(i);
            }
            i = i + 1;
        }
        None
    }

    /// Records `value` under `key`. A value recorded under that key before is
    /// replaced.
    pub fn insert(&mut self, key: String, value: String)
        ensures
            final(self)@ == old(self)@.insert(key@, value@),
    {
        proof {
            use_type_invariant(&*self);
        }
        let ghost before = self.entries@;
        let found = self.find(&key);
        let entry = Entry { key, value };
        // The list is taken out, changed and put back, so that it is never
        // seen half changed.
        let mut entries: Vec<Entry> = Vec::new();
        core::mem::swap(&mut self.entries, &mut entries);
        match found {
            Some(i) => {
                proof {
                    lemma_replace(before, i as int, entry);
                }
                entries.set(i, entry);
            },
            None => {
                proof {
                    lemma_append(before, entry);
                }
                entries.push(entry);
            },
        }
        self.entries = entries;
    }

    /// The text recorded under `key`, if there is one.
    pub fn get(&self, key: &str) -> (found: Option<&str>)
        ensures
            match found {
                Some(value) => self@.contains_key(key@) && self@[key@] == value@,
                None => !self@.contains_key(key@),
            },
    {
        proof {
            use_type_invariant(self);
        }
        let owned = key.to_owned();
        match self.find(&owned) {
            Some(i) => {
                assert(position_of(self.entries@, key@) == i);
                Some(self.entries[i].value.as_str())
            },
            None => None,
        }
    }

    /// Whether anything is recorded under `key`.
    pub fn contains_key(&self, key: &str) -> (found: bool)
        ensures
            found == self@.contains_key(key@),
    {
        self.get(key).is_some()
    }

    /// The entries of the map, one for each key.
    pub fn entries(&self) -> (entries: &Vec<Entry>)
        ensures
            distinct_keys(entries@),
            map_of(entries@) == self@,
    {
        proof {
            use_type_invariant(self);
        }
        &self.entries
    }
}

/// Putting an entry in the place of one with the same key keeps the keys
/// distinct and records the new value under that key.
proof fn lemma_replace(before: Seq<Entry>, i: int, entry: Entry)
    requires
        distinct_keys(before),
        0 <= i < before.len(),
        before[i].key@ == entry.key@,
    ensures
        distinct_keys(before.update(i, entry)),
        map_of(before.update(i, entry)) == map_of(before).insert(entry.key@, entry.value@),
{
    let after = before.update(i, entry);
    assert forall|a: int, b: int| 0 <= a < b < after.len() implies (#[trigger] after[a]).key@ != (
    #[trigger] after[b]).key@ by {
        assert(after[a].key@ == before[a].key@);
        assert(after[b].key@ == before[b].key@);
    }
    assert forall|k: Seq<char>| has_key(after, k) == has_key(before, k) by {
        if has_key(before, k) {
            assert(after[position_of(before, k)].key@ == k);
        }
        if has_key(after, k) {
            assert(before[position_of(after, k)].key@ == k);
        }
    }
    assert forall|k: Seq<char>| has_key(after, k) implies #[trigger] map_of(after)[k] == map_of(
        before,
    ).insert(entry.key@, entry.value@)[k] by {
        let p = position_of(after, k);
        if k == entry.key@ {
            assert(p == i);
        } else {
            let q = position_of(before, k);
            assert(after[q].key@ == k);
            assert(p == q);
        }
    }
    assert(map_of(after) =~= map_of(before).insert(entry.key@, entry.value@));
}

/// Adding an entry with a new key keeps the keys distinct and records its
/// value under that key.
proof fn lemma_append(before: Seq<Entry>, entry: Entry)
    requires
        distinct_keys(before),
        !has_key(before, entry.key@),
    ensures
        distinct_keys(before.push(entry)),
        map_of(before.push(entry)) == map_of(before).insert(entry.key@, entry.value@),
{
    let after = before.push(entry);
    let last = before.len() as int;
    assert forall|a: int, b: int| 0 <= a < b < after.len() implies (#[trigger] after[a]).key@ != (
    #[trigger] after[b]).key@ by {
        assert(after[a] == before[a]);
        if b < last {
            assert(after[b] == before[b]);
        }
    }
    assert forall|k: Seq<char>| has_key(after, k) == (k == entry.key@ || has_key(before, k)) by {
        if has_key(before, k) {
            assert(after[position_of(before, k)].key@ == k);
        }
        if k == entry.key@ {
            assert(after[last].key@ == k);
        }
        if has_key(after, k) {
            let p = position_of(after, k);
            if p < last {
                assert(before[p].key@ == k);
            }
        }
    }
    assert forall|k: Seq<char>| has_key(after, k) implies #[trigger] map_of(after)[k] == map_of(
        before,
    ).insert(entry.key@, entry.value@)[k] by {
        let p = position_of(after, k);
        if k == entry.key@ {
            assert(after[last].key@ == k);
            assert(p == last);
        } else {
            assert(before[p].key@ == k);
            let q = position_of(before, k);
            assert(after[q].key@ == k);
            assert(p == q);
        }
    }
    assert(map_of(after) =~= map_of(before).insert(entry.key@, entry.value@));
}

/// A list of entries with distinct keys stands for a map with as many keys as
/// the list has entries.
pub proof fn lemma_domain_size(entries: Seq<Entry>)
    requires
        distinct_keys(entries),
    ensures
        map_of(entries).dom().finite(),
        map_of(entries).dom().len() == entries.len(),
    decreases entries.len(),
{
    if entries.len() == 0 {
        assert(map_of(entries).dom() =~= Set::<Seq<char>>::empty());
    } else {
        let front = entries.drop_last();
        let last = entries.last();
        assert forall|i: int, j: int| 0 <= i < j < front.len() implies (#[trigger] front[i]).key@ != (
        #[trigger] front[j]).key@ by {
            assert(front[i] == entries[i]);
            assert(front[j] == entries[j]);
        }
        lemma_domain_size(front);
        assert(!has_key(front, last.key@)) by {
            if has_key(front, last.key@) {
                let p = position_of(front, last.key@);
                assert(front[p] == entries[p]);
                assert(entries[entries.len() - 1] == last);
            }
        }
        assert forall|k: Seq<char>| has_key(entries, k) == (k == last.key@ || has_key(front, k)) by {
            if has_key(front, k) {
                let p = position_of(front, k);
                assert(entries[p] == front[p]);
            }
            if k == last.key@ {
                assert(entries[entries.len() - 1].key@ == k);
            }
            if has_key(entries, k) {
                let p = position_of(entries, k);
                if p < front.len() {
                    assert(front[p] == entries[p]);
                }
            }
        }
        assert(map_of(entries).dom() =~= map_of(front).dom().insert(last.key@));
    }
}

} // verus!
