use draft_store::{Addr, Draft, Record, State, Storage};

fn config(owner: &str, draft_count: u64) -> Record {
    Record::Config(State { owner: Addr::unchecked(owner), draft_count })
}

fn draft(content: &str, metadata: &str, timestamp: u64) -> Record {
    Record::Draft(Draft {
        encrypted_content: content.to_string(),
        encrypted_metadata: metadata.to_string(),
        timestamp,
    })
}

#[test]
fn empty_storage_holds_nothing() {
    let storage = Storage::new();
    assert_eq!(storage.get(b"config"), None);
    assert_eq!(storage.get(b""), None);
}

#[test]
fn set_then_get_gives_the_record() {
    let mut storage = Storage::new();
    storage.set(b"foo", config("a", 3));
    assert_eq!(storage.get(b"foo"), Some(&config("a", 3)));
    assert_eq!(storage.get(b"food"), None);
    assert_eq!(storage.get(b"fo"), None);
}

#[test]
fn set_replaces_what_was_there() {
    let mut storage = Storage::new();
    storage.set(b"k", draft("c1", "m1", 1));
    storage.set(b"k", draft("c2", "m2", 2));
    assert_eq!(storage.get(b"k"), Some(&draft("c2", "m2", 2)));
}

#[test]
fn set_leaves_other_keys_alone() {
    let mut storage = Storage::new();
    storage.set(b"a", draft("ca", "ma", 1));
    storage.set(b"b", draft("cb", "mb", 2));
    storage.set(b"a", draft("cx", "mx", 3));
    assert_eq!(storage.get(b"a"), Some(&draft("cx", "mx", 3)));
    assert_eq!(storage.get(b"b"), Some(&draft("cb", "mb", 2)));
}

#[test]
fn remove_takes_the_record_away() {
    let mut storage = Storage::new();
    storage.set(b"a", draft("ca", "ma", 1));
    storage.set(b"b", draft("cb", "mb", 2));
    storage.set(b"c", draft("cc", "mc", 3));
    storage.remove(b"a");
    assert_eq!(storage.get(b"a"), None);
    assert_eq!(storage.get(b"b"), Some(&draft("cb", "mb", 2)));
    assert_eq!(storage.get(b"c"), Some(&draft("cc", "mc", 3)));
}

#[test]
fn remove_of_a_missing_key_changes_nothing() {
    let mut storage = Storage::new();
    storage.set(b"a", draft("ca", "ma", 1));
    storage.remove(b"zzz");
    assert_eq!(storage.get(b"a"), Some(&draft("ca", "ma", 1)));
}

#[test]
fn the_empty_key_is_a_key() {
    let mut storage = Storage::new();
    storage.set(b"", config("o", 0));
    assert_eq!(storage.get(b""), Some(&config("o", 0)));
    storage.remove(b"");
    assert_eq!(storage.get(b""), None);
}
