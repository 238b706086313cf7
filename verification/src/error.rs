//! Errors of the store.

use vstd::prelude::*;

verus! {

/// The two kinds of record that the storage holds.
#[derive(Debug, Clone, Copy, PartialEq, Eq)]
pub enum RecordKind {
    /// The singleton configuration.
    Config,
    /// The draft of one account.
    Draft,
}

/// Why a request failed. A failed request leaves the storage as it was.
#[derive(Debug, Clone, Copy, PartialEq, Eq)]
pub enum ContractError {
    /// No record of this kind is kept under the key that was asked for: the
    /// configuration was never written, or the account has no draft.
    NotFound { kind: RecordKind },
    /// The key holds something, but not a record of the kind that belongs
    /// there.
    StorageFailure,
}

} // verus!
