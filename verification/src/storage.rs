//! The key-value storage.

use vstd::prelude::*;

use crate::state::{Record, RecordView};

verus! {

/// One key with the record kept under it.
struct Entry {
    key: Vec<u8>,
    record: Record,
}

/// A key-value storage: a finite map from byte keys to records.
///
/// A key holds at most one record. Writing under a key that already holds one
/// replaces it.
pub struct Storage {
    entries: Vec<Entry>,
}

/// Whether entry `i` exists and has the key `key`.
spec fn keyed(entries: Seq<Entry>, i: int, key: Seq<u8>) -> bool {
    0 <= i < entries.len() && entries[i].key@ == key
}

/// Whether no two entries share a key.
spec fn distinct_keys(entries: Seq<Entry>) -> bool {
    forall|i: int, j: int|
        0 <= i < entries.len() && 0 <= j < entries.len() && i != j ==> #[trigger] entries[i].key@
            != #[trigger] entries[j].key@
}

/// The map that a list of entries stands for.
spec fn model_of(entries: Seq<Entry>) -> Map<Seq<u8>, RecordView> {
    Map::new(
        |key: Seq<u8>| exists|i: int| keyed(entries, i, key),
        |key: Seq<u8>| entries[choose|i: int| keyed(entries, i, key)].record@,
    )
}

/// Where no two entries share a key, the map holds under each entry's key
/// that entry's record.
proof fn lemma_model_at(entries: Seq<Entry>, i: int)
    requires
        distinct_keys(entries),
        0 <= i < entries.len(),
    ensures
        model_of(entries).contains_key(entries[i].key@),
        model_of(entries)[entries[i].key@] == entries[i].record@,
{
    let key = entries[i].key@;
    assert(keyed(entries, i, key));
    let j = choose|j: int| keyed(entries, j, key);
    assert(j == i);
}

/// Putting an entry in place of one with the same key writes its record
/// under that key.
proof fn lemma_model_update(entries: Seq<Entry>, i: int, entry: Entry)
    requires
        distinct_keys(entries),
        0 <= i < entries.len(),
        entry.key@ == entries[i].key@,
    ensures
        distinct_keys(entries.update(i, entry)),
        model_of(entries.update(i, entry)) == model_of(entries).insert(entry.key@, entry.record@),
{
    let after = entries.update(i, entry);
    assert forall|j: int| 0 <= j < entries.len() implies #[trigger] after[j].key@
        == entries[j].key@ by {}
    assert(distinct_keys(after));
    let left = model_of(after);
    let right = model_of(entries).insert(entry.key@, entry.record@);
    assert forall|key: Seq<u8>| left.contains_key(key) <==> right.contains_key(key) by {
        if left.contains_key(key) {
            let j = choose|j: int| keyed(after, j, key);
            assert(keyed(entries, j, key));
        }
        if right.contains_key(key) {
            if key == entry.key@ {
                assert(keyed(after, i, key));
            } else {
                let j = choose|j: int| keyed(entries, j, key);
                assert(keyed(after, j, key));
            }
        }
    }
    assert forall|key: Seq<u8>| left.contains_key(key) implies left[key] == right[key] by {
        let j = choose|j: int| keyed(after, j, key);
        lemma_model_at(after, j);
        if j != i {
            lemma_model_at(entries, j);
        }
    }
    assert(left =~= right);
}

/// Adding an entry whose key is new writes its record under that key.
proof fn lemma_model_push(entries: Seq<Entry>, entry: Entry)
    requires
        distinct_keys(entries),
        forall|i: int| !keyed(entries, i, entry.key@),
    ensures
        distinct_keys(entries.push(entry)),
        model_of(entries.push(entry)) == model_of(entries).insert(entry.key@, entry.record@),
{
    let after = entries.push(entry);
    let last = entries.len() as int;
    assert forall|j: int| 0 <= j < entries.len() implies #[trigger] after[j] == entries[j] by {}
    assert forall|j: int| 0 <= j < entries.len() implies #[trigger] entries[j].key@
        != entry.key@ by {
        assert(!keyed(entries, j, entry.key@));
    }
    assert(distinct_keys(after));
    let left = model_of(after);
    let right = model_of(entries).insert(entry.key@, entry.record@);
    assert forall|key: Seq<u8>| left.contains_key(key) <==> right.contains_key(key) by {
        if left.contains_key(key) {
            let j = choose|j: int| keyed(after, j, key);
            if j != last {
                assert(keyed(entries, j, key));
            }
        }
        if right.contains_key(key) {
            if key == entry.key@ {
                assert(keyed(after, last, key));
            } else {
                let j = choose|j: int| keyed(entries, j, key);
                assert(keyed(after, j, key));
            }
        }
    }
    assert forall|key: Seq<u8>| left.contains_key(key) implies left[key] == right[key] by {
        let j = choose|j: int| keyed(after, j, key);
        lemma_model_at(after, j);
        if j != last {
            lemma_model_at(entries, j);
        }
    }
    assert(left =~= right);
}

/// Taking an entry out removes its key.
proof fn lemma_model_remove(entries: Seq<Entry>, i: int)
    requires
        distinct_keys(entries),
        0 <= i < entries.len(),
    ensures
        distinct_keys(entries.remove(i)),
        model_of(entries.remove(i)) == model_of(entries).remove(entries[i].key@),
{
    let after = entries.remove(i);
    let gone = entries[i].key@;
    assert forall|j: int| 0 <= j < after.len() implies #[trigger] after[j] == entries[if j < i {
        j
    } else {
        j + 1
    }] by {}
    assert(distinct_keys(after)) by {
        assert forall|a: int, b: int|
            0 <= a < after.len() && 0 <= b < after.len() && a != b implies #[trigger] after[a].key@
            != #[trigger] after[b].key@ by {
            let a0 = if a < i { a } else { a + 1 };
            let b0 = if b < i { b } else { b + 1 };
            assert(after[a] == entries[a0]);
            assert(after[b] == entries[b0]);
        }
    }
    let left = model_of(after);
    let right = model_of(entries).remove(gone);
    assert forall|key: Seq<u8>| left.contains_key(key) <==> right.contains_key(key) by {
        if left.contains_key(key) {
            let j = choose|j: int| keyed(after, j, key);
            let j0 = if j < i { j } else { j + 1 };
            assert(after[j] == entries[j0]);
            assert(keyed(entries, j0, key));
        }
        if right.contains_key(key) {
            let j0 = choose|j: int| keyed(entries, j, key);
            let j = if j0 < i { j0 } else { j0 - 1 };
            assert(after[j] == entries[j0]);
            assert(keyed(after, j, key));
        }
    }
    assert forall|key: Seq<u8>| left.contains_key(key) implies left[key] == right[key] by {
        let j = choose|j: int| keyed(after, j, key);
        let j0 = if j < i { j } else { j + 1 };
        assert(after[j] == entries[j0]);
        lemma_model_at(after, j);
        lemma_model_at(entries, j0);
    }
    assert(left =~= right);
}

/// Whether two byte strings are the same.
fn same_bytes(a: &[u8], b: &[u8]) -> (same: bool)
    ensures
        same == (a@ == b@),
{
    if a.len() != b.len() {
        return false;
    }
    let mut i: usize = 0;
    while i < a.len()
        invariant
            a.len() == b.len(),
            i <= a.len(),
            forall|j: int| 0 <= j < i ==> a@[j] == b@[j],
        decreases a.len() - i,
    {
        if a[i] != b[i] {
            return false;
        }
        i += 1;
    }
    assert(a@ =~= b@);
    true
}

impl View for Storage {
    type V = Map<Seq<u8>, RecordView>;

    closed spec fn view(&self) -> Map<Seq<u8>, RecordView> {
        model_of(self.entries@)
    }
}

impl Storage {
    /// No two entries share a key.
    #[verifier::type_invariant]
    spec fn well_formed(self) -> bool {
        distinct_keys(self.entries@)
    }

    /// A storage is always a finite map.
    pub proof fn lemma_finite(self)
        ensures
            self@.dom().finite(),
    {
        let entries = self.entries@;
        let keys = entries.map_values(|entry: Entry| entry.key@);
        vstd::seq_lib::seq_to_set_is_finite(keys);
        assert forall|key: Seq<u8>| self@.dom().contains(key) <==> keys.to_set().contains(key) by {
            if self@.dom().contains(key) {
                let i = choose|i: int| keyed(entries, i, key);
                assert(keys[i] == key);
            }
            if keys.to_set().contains(key) {
                let i = choose|i: int| 0 <= i < keys.len() && keys[i] == key;
                assert(keyed(entries, i, key));
            }
        }
        assert(self@.dom() =~= keys.to_set());
    }

    /// An empty storage.
    pub fn new() -> (storage: Storage)
        ensures
            storage@ == Map::<Seq<u8>, RecordView>::empty(),
    {
        let storage = Storage { entries: Vec::new() };
        assert(storage@ =~= Map::<Seq<u8>, RecordView>::empty());
        storage
    }

    /// Where the entry with the key `key` stands, if there is one.
    fn position(&self, key: &[u8]) -> (at: Option<usize>)
        ensures
            match at {
                Some(i) => keyed(self.entries@, i as int, key@),
                None => forall|i: int| !keyed(self.entries@, i, key@),
            },
    {
        let mut i: usize = 0;
        while i < self.entries.len()
            invariant
                i <= self.entries.len(),
                forall|j: int| 0 <= j < i ==> !keyed(self.entries@, j, key@),
            decreases self.entries.len() - i,
        {
            if same_bytes(self.entries[i].key.as_slice(), key) {
                return Some(i);
            }
            i += 1;
        }
        None
    }

    /// The record kept under `key`, if there is one.
    pub fn get(&self, key: &[u8]) -> (found: Option<&Record>)
        ensures
            match found {
                Some(record) => self@.contains_key(key@) && self@[key@] == record@,
                None => !self@.contains_key(key@),
            },
    {
        proof {
            use_type_invariant(self);
        }
        match self.position(key) {
            Some(i) => {
                proof {
                    lemma_model_at(self.entries@, i as int);
                }
                Some(&self.entries[i].record)
            },
            None => None,
        }
    }

    /// Writes `record` under `key`, in place of whatever was there.
    pub fn set(&mut self, key: &[u8], record: Record)
        ensures
            final(self)@ == old(self)@.insert(key@, record@),
    {
        proof {
            use_type_invariant(&*self);
        }
        let at = self.position(key);
        let entry = Entry { key: vstd::slice::slice_to_vec(key), record };
        let mut entries = Vec::new();
        std::mem::swap(&mut entries, &mut self.entries);
        match at {
            Some(i) => {
                proof {
                    lemma_model_update(entries@, i as int, entry);
                }
                entries.set(i, entry);
            },
            None => {
                proof {
                    lemma_model_push(entries@, entry);
                }
                entries.push(entry);
            },
        }
        self.entries = entries;
    }

    /// Removes whatever is kept under `key`. A key that holds nothing is left
    /// alone.
    pub fn remove(&mut self, key: &[u8])
        ensures
            final(self)@ == old(self)@.remove(key@),
    {
        proof {
            use_type_invariant(&*self);
        }
        match self.position(key) {
            Some(i) => {
                let mut entries = Vec::new();
                std::mem::swap(&mut entries, &mut self.entries);
                proof {
                    lemma_model_remove(entries@, i as int);
                }
                entries.remove(i);
                self.entries = entries;
            },
            None => {
                assert(self@ =~= old(self)@.remove(key@));
            },
        }
    }
}

} // verus!
