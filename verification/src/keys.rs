//! Storage keys.
//!
//! The configuration lives under one fixed key. The draft of an account lives
//! under a fixed prefix followed by the account's address in UTF-8. The two
//! namespaces never meet, and distinct accounts never share a key.

use vstd::prelude::*;
use vstd::utf8::*;

use crate::addr::Addr;

verus! {

/// The key of the configuration record: the UTF-8 bytes of `config`.
pub open spec fn config_key_spec() -> Seq<u8> {
    encode_utf8("config"@)
}

/// The prefix shared by all draft keys: the UTF-8 bytes of `draft:`.
pub open spec fn draft_prefix_spec() -> Seq<u8> {
    encode_utf8("draft:"@)
}

/// The key of the draft that belongs to the account at `address`.
pub open spec fn draft_key_spec(address: Seq<char>) -> Seq<u8> {
    draft_prefix_spec() + encode_utf8(address)
}

/// Whether `key` lies in the namespace of drafts.
pub open spec fn is_draft_key(key: Seq<u8>) -> bool {
    draft_prefix_spec().is_prefix_of(key)
}

/// The key of the configuration record.
pub fn config_key() -> (key: Vec<u8>)
    ensures
        key@ == config_key_spec(),
{
    vstd::slice::slice_to_vec("config".as_bytes())
}

/// The key under which the draft of the account at `address` is kept.
pub fn draft_key(address: &Addr) -> (key: Vec<u8>)
    ensures
        key@ == draft_key_spec(address@),
{
    let mut key = vstd::slice::slice_to_vec("draft:".as_bytes());
    let ghost prefix = key@;
    key.extend_from_slice(address.as_bytes());
    assert(key@ =~= prefix + encode_utf8(address@));
    key
}

/// The bytes of the configuration key.
pub proof fn lemma_config_key_bytes()
    ensures
        config_key_spec() == seq![0x63u8, 0x6f, 0x6e, 0x66, 0x69, 0x67],
{
    reveal_strlit("config");
    let chars = "config"@;
    assert(is_ascii_chars(chars));
    is_ascii_chars_encode_utf8(chars);
    assert(encode_utf8(chars) =~= seq![0x63u8, 0x6f, 0x6e, 0x66, 0x69, 0x67]);
}

/// The bytes of the draft prefix.
pub proof fn lemma_draft_prefix_bytes()
    ensures
        draft_prefix_spec() == seq![0x64u8, 0x72, 0x61, 0x66, 0x74, 0x3a],
{
    reveal_strlit("draft:");
    let chars = "draft:"@;
    assert(is_ascii_chars(chars));
    is_ascii_chars_encode_utf8(chars);
    assert(encode_utf8(chars) =~= seq![0x64u8, 0x72, 0x61, 0x66, 0x74, 0x3a]);
}

/// Distinct accounts have distinct draft keys.
pub proof fn lemma_draft_key_injective(a: Seq<char>, b: Seq<char>)
    ensures
        draft_key_spec(a) == draft_key_spec(b) <==> a == b,
{
    if draft_key_spec(a) == draft_key_spec(b) {
        let p = draft_prefix_spec();
        let ea = encode_utf8(a);
        let eb = encode_utf8(b);
        assert(ea =~= (p + ea).subrange(p.len() as int, (p + ea).len() as int));
        assert(eb =~= (p + eb).subrange(p.len() as int, (p + eb).len() as int));
        encode_utf8_decode_utf8(a);
        encode_utf8_decode_utf8(b);
    }
}

/// No account's draft is kept under the configuration key, and every draft
/// key lies in the namespace of drafts, which the configuration key does not.
pub proof fn lemma_draft_key_not_config(a: Seq<char>)
    ensures
        draft_key_spec(a) != config_key_spec(),
        is_draft_key(draft_key_spec(a)),
        !is_draft_key(config_key_spec()),
{
    lemma_config_key_bytes();
    lemma_draft_prefix_bytes();
    let key = draft_key_spec(a);
    assert(key[0] == draft_prefix_spec()[0]);
    assert(config_key_spec()[0] == 0x63u8);
    assert(draft_prefix_spec()[0] == 0x64u8);
}

} // verus!
