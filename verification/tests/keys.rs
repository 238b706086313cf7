use draft_store::{config_key, draft_key, Addr};

#[test]
fn config_key_is_the_word_config() {
    assert_eq!(config_key(), b"config".to_vec());
}

#[test]
fn draft_key_is_prefix_then_address() {
    assert_eq!(draft_key(&Addr::unchecked("alice")), b"draft:alice".to_vec());
}

#[test]
fn draft_key_of_the_empty_address_is_the_prefix() {
    assert_eq!(draft_key(&Addr::unchecked("")), b"draft:".to_vec());
}

#[test]
fn draft_key_keeps_the_utf8_bytes_of_the_address() {
    let key = draft_key(&Addr::unchecked("zoë"));
    assert_eq!(key, "draft:zoë".as_bytes().to_vec());
    assert_eq!(key.len(), 10);
}

#[test]
fn different_accounts_have_different_keys() {
    let a = draft_key(&Addr::unchecked("alice"));
    let b = draft_key(&Addr::unchecked("alicf"));
    let c = draft_key(&Addr::unchecked("alice1"));
    assert_ne!(a, b);
    assert_ne!(a, c);
    assert_ne!(b, c);
}

#[test]
fn no_draft_key_is_the_config_key() {
    assert_ne!(draft_key(&Addr::unchecked("config")), config_key());
    assert_ne!(draft_key(&Addr::unchecked("")), config_key());
}

#[test]
fn address_keeps_its_text() {
    let a = Addr::unchecked("cosmos1abc");
    assert_eq!(a.as_str(), "cosmos1abc");
    assert_eq!(a.as_bytes(), b"cosmos1abc");
    assert_eq!(a.clone(), a);
    assert_eq!(a.into_string(), String::from("cosmos1abc"));
}
