//! What the operations of the store mean.
//!
//! The storage stands for a finite map from keys to records. Each operation
//! is described here as a function on such maps; the executable operations
//! promise to follow these descriptions.

use vstd::prelude::*;

use crate::error::{ContractError, RecordKind};
use crate::keys::{config_key_spec, draft_key_spec};
use crate::state::{DraftView, RecordView, StateView};

verus! {

/// Whether `res` is the outcome `want`: the same error, or a value that
/// stands for the wanted one.
pub open spec fn answers<T: View>(
    res: Result<T, ContractError>,
    want: Result<T::V, ContractError>,
) -> bool {
    match want {
        Ok(value) => res matches Ok(got) && got@ == value,
        Err(error) => res matches Err(got) && got == error,
    }
}

/// Reading the configuration. It is missing until the deployment is set up.
pub open spec fn read_config_spec(storage: Map<Seq<u8>, RecordView>) -> Result<
    StateView,
    ContractError,
> {
    if !storage.contains_key(config_key_spec()) {
        Err(ContractError::NotFound { kind: RecordKind::Config })
    } else {
        match storage[config_key_spec()] {
            RecordView::Config(state) => Ok(state),
            RecordView::Draft(_) => Err(ContractError::StorageFailure),
        }
    }
}

/// Whether anything is kept as the draft of the account at `address`.
pub open spec fn has_draft_spec(storage: Map<Seq<u8>, RecordView>, address: Seq<char>) -> bool {
    storage.contains_key(draft_key_spec(address))
}

/// Reading the draft of the account at `address`.
pub open spec fn read_draft_spec(
    storage: Map<Seq<u8>, RecordView>,
    address: Seq<char>,
) -> Result<DraftView, ContractError> {
    if !has_draft_spec(storage, address) {
        Err(ContractError::NotFound { kind: RecordKind::Draft })
    } else {
        match storage[draft_key_spec(address)] {
            RecordView::Draft(draft) => Ok(draft),
            RecordView::Config(_) => Err(ContractError::StorageFailure),
        }
    }
}

/// The storage after `state` was written as the configuration.
pub open spec fn config_store_spec(
    storage: Map<Seq<u8>, RecordView>,
    state: StateView,
) -> Map<Seq<u8>, RecordView> {
    storage.insert(config_key_spec(), RecordView::Config(state))
}

/// The storage after `draft` was written as the draft of the account at
/// `address`.
pub open spec fn store_draft_spec(
    storage: Map<Seq<u8>, RecordView>,
    address: Seq<char>,
    draft: DraftView,
) -> Map<Seq<u8>, RecordView> {
    storage.insert(draft_key_spec(address), RecordView::Draft(draft))
}

/// The storage after the draft of the account at `address` was removed.
pub open spec fn delete_draft_spec(
    storage: Map<Seq<u8>, RecordView>,
    address: Seq<char>,
) -> Map<Seq<u8>, RecordView> {
    storage.remove(draft_key_spec(address))
}

/// One less, but never less than nothing.
pub open spec fn decrement(count: nat) -> nat {
    if count == 0 {
        0
    } else {
        (count - 1) as nat
    }
}

/// Setting a deployment up: the configuration names the owner, or the sender
/// where no owner is named, and counts no drafts.
pub open spec fn instantiate_spec(
    storage: Map<Seq<u8>, RecordView>,
    sender: Seq<char>,
    owner: Option<Seq<char>>,
) -> Map<Seq<u8>, RecordView> {
    let owner = match owner {
        Some(owner) => owner,
        None => sender,
    };
    config_store_spec(storage, StateView { owner, draft_count: 0 })
}

/// Keeping a draft for `sender`: it fails as reading the configuration fails;
/// otherwise the draft is written with the time of the request, and the count
/// goes up by one, whether or not the sender had a draft before.
pub open spec fn store_draft_handler_spec(
    storage: Map<Seq<u8>, RecordView>,
    sender: Seq<char>,
    encrypted_content: Seq<char>,
    encrypted_metadata: Seq<char>,
    seconds: nat,
) -> Result<Map<Seq<u8>, RecordView>, ContractError> {
    match read_config_spec(storage) {
        Err(error) => Err(error),
        Ok(state) => {
            let draft = DraftView { encrypted_content, encrypted_metadata, timestamp: seconds };
            let state = StateView { owner: state.owner, draft_count: state.draft_count + 1 };
            Ok(config_store_spec(store_draft_spec(storage, sender, draft), state))
        },
    }
}

/// Discarding the draft of `sender`: it fails where the sender has none, and
/// as reading the configuration fails; otherwise the draft is removed and the
/// count goes down by one, but not below nothing.
pub open spec fn delete_draft_handler_spec(
    storage: Map<Seq<u8>, RecordView>,
    sender: Seq<char>,
) -> Result<Map<Seq<u8>, RecordView>, ContractError> {
    if !has_draft_spec(storage, sender) {
        Err(ContractError::NotFound { kind: RecordKind::Draft })
    } else {
        match read_config_spec(storage) {
            Err(error) => Err(error),
            Ok(state) => {
                let state = StateView {
                    owner: state.owner,
                    draft_count: decrement(state.draft_count),
                };
                Ok(config_store_spec(delete_draft_spec(storage, sender), state))
            },
        }
    }
}

/// Asking for the draft of the account at `address`.
pub open spec fn query_draft_spec(
    storage: Map<Seq<u8>, RecordView>,
    address: Seq<char>,
) -> Result<DraftView, ContractError> {
    read_draft_spec(storage, address)
}

/// Asking for the configuration.
pub open spec fn query_config_spec(storage: Map<Seq<u8>, RecordView>) -> Result<
    StateView,
    ContractError,
> {
    read_config_spec(storage)
}

/// Whether the count of drafts can go up by one.
pub open spec fn can_count(storage: Map<Seq<u8>, RecordView>) -> bool {
    read_config_spec(storage) matches Ok(state) ==> state.draft_count < u64::MAX
}

/// What a set-up leaves for the audit.
pub open spec fn instantiate_attributes() -> Seq<(Seq<char>, Seq<char>)> {
    seq![("action"@, "instantiate"@)]
}

/// What keeping a draft leaves for the audit.
pub open spec fn store_draft_attributes(sender: Seq<char>) -> Seq<(Seq<char>, Seq<char>)> {
    seq![("action"@, "store_draft"@), ("sender"@, sender)]
}

/// What discarding a draft leaves for the audit.
pub open spec fn delete_draft_attributes(sender: Seq<char>) -> Seq<(Seq<char>, Seq<char>)> {
    seq![("action"@, "delete_draft"@), ("sender"@, sender)]
}

} // verus!
