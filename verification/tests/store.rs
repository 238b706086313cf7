use draft_store::{
    config_key, config_store, delete_draft, draft_key, has_draft, read_config, read_draft,
    store_draft, Addr, ContractError, Draft, Record, RecordKind, State, Storage,
};

fn a_draft(content: &str, metadata: &str, timestamp: u64) -> Draft {
    Draft {
        encrypted_content: content.to_string(),
        encrypted_metadata: metadata.to_string(),
        timestamp,
    }
}

#[test]
fn read_config_without_config_is_not_found() {
    let storage = Storage::new();
    assert_eq!(
        read_config(&storage),
        Err(ContractError::NotFound { kind: RecordKind::Config })
    );
}

#[test]
fn config_store_then_read_config() {
    let mut storage = Storage::new();
    let state = State { owner: Addr::unchecked("owner"), draft_count: 7 };
    assert_eq!(config_store(&mut storage, &state), Ok(()));
    assert_eq!(read_config(&storage), Ok(state));
}

#[test]
fn config_store_overwrites() {
    let mut storage = Storage::new();
    config_store(&mut storage, &State { owner: Addr::unchecked("a"), draft_count: 1 }).unwrap();
    config_store(&mut storage, &State { owner: Addr::unchecked("b"), draft_count: 2 }).unwrap();
    assert_eq!(
        read_config(&storage),
        Ok(State { owner: Addr::unchecked("b"), draft_count: 2 })
    );
}

#[test]
fn config_lives_under_the_config_key() {
    let mut storage = Storage::new();
    let state = State { owner: Addr::unchecked("owner"), draft_count: 0 };
    config_store(&mut storage, &state).unwrap();
    assert_eq!(storage.get(&config_key()), Some(&Record::Config(state)));
}

#[test]
fn store_draft_then_read_draft() {
    let mut storage = Storage::new();
    let alice = Addr::unchecked("alice");
    assert!(!has_draft(&storage, &alice));
    assert_eq!(store_draft(&mut storage, &alice, &a_draft("c", "m", 9)), Ok(()));
    assert!(has_draft(&storage, &alice));
    assert_eq!(read_draft(&storage, &alice), Ok(a_draft("c", "m", 9)));
}

#[test]
fn draft_lives_under_the_draft_key() {
    let mut storage = Storage::new();
    let alice = Addr::unchecked("alice");
    store_draft(&mut storage, &alice, &a_draft("c", "m", 9)).unwrap();
    assert_eq!(storage.get(b"draft:alice"), Some(&Record::Draft(a_draft("c", "m", 9))));
    assert_eq!(storage.get(&draft_key(&alice)), Some(&Record::Draft(a_draft("c", "m", 9))));
}

#[test]
fn read_draft_without_draft_is_not_found() {
    let mut storage = Storage::new();
    store_draft(&mut storage, &Addr::unchecked("alice"), &a_draft("c", "m", 9)).unwrap();
    assert_eq!(
        read_draft(&storage, &Addr::unchecked("bob")),
        Err(ContractError::NotFound { kind: RecordKind::Draft })
    );
}

#[test]
fn drafts_of_different_accounts_are_apart() {
    let mut storage = Storage::new();
    let alice = Addr::unchecked("alice");
    let bob = Addr::unchecked("bob");
    store_draft(&mut storage, &alice, &a_draft("ca", "ma", 1)).unwrap();
    store_draft(&mut storage, &bob, &a_draft("cb", "mb", 2)).unwrap();
    assert_eq!(read_draft(&storage, &alice), Ok(a_draft("ca", "ma", 1)));
    assert_eq!(read_draft(&storage, &bob), Ok(a_draft("cb", "mb", 2)));
}

#[test]
fn delete_draft_removes_only_that_draft() {
    let mut storage = Storage::new();
    let alice = Addr::unchecked("alice");
    let bob = Addr::unchecked("bob");
    store_draft(&mut storage, &alice, &a_draft("ca", "ma", 1)).unwrap();
    store_draft(&mut storage, &bob, &a_draft("cb", "mb", 2)).unwrap();
    assert_eq!(delete_draft(&mut storage, &alice), Ok(()));
    assert!(!has_draft(&storage, &alice));
    assert!(has_draft(&storage, &bob));
}

#[test]
fn delete_draft_without_draft_is_a_no_op() {
    let mut storage = Storage::new();
    let state = State { owner: Addr::unchecked("o"), draft_count: 4 };
    config_store(&mut storage, &state).unwrap();
    assert_eq!(delete_draft(&mut storage, &Addr::unchecked("nobody")), Ok(()));
    assert_eq!(read_config(&storage), Ok(state));
}

#[test]
fn an_account_named_like_the_config_has_its_own_draft() {
    let mut storage = Storage::new();
    let state = State { owner: Addr::unchecked("o"), draft_count: 0 };
    config_store(&mut storage, &state).unwrap();
    let odd = Addr::unchecked("config");
    store_draft(&mut storage, &odd, &a_draft("c", "m", 1)).unwrap();
    assert_eq!(read_config(&storage), Ok(state));
    assert_eq!(read_draft(&storage, &odd), Ok(a_draft("c", "m", 1)));
}

#[test]
fn a_draft_under_the_config_key_is_a_storage_failure() {
    let mut storage = Storage::new();
    storage.set(&config_key(), Record::Draft(a_draft("c", "m", 1)));
    assert_eq!(read_config(&storage), Err(ContractError::StorageFailure));
}

#[test]
fn a_config_under_a_draft_key_is_a_storage_failure() {
    let mut storage = Storage::new();
    let alice = Addr::unchecked("alice");
    storage.set(
        &draft_key(&alice),
        Record::Config(State { owner: Addr::unchecked("o"), draft_count: 0 }),
    );
    assert!(has_draft(&storage, &alice));
    assert_eq!(read_draft(&storage, &alice), Err(ContractError::StorageFailure));
}
