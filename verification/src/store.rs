//! Reading and writing the two kinds of record.

use vstd::prelude::*;

use crate::addr::Addr;
use crate::error::{ContractError, RecordKind};
use crate::keys::{config_key, draft_key};
use crate::model::{
    answers, config_store_spec, delete_draft_spec, has_draft_spec, read_config_spec,
    read_draft_spec, store_draft_spec,
};
use crate::state::{Draft, Record, State};
use crate::storage::Storage;

verus! {

/// Writes `state` as the configuration, in place of any earlier one.
pub fn config_store(storage: &mut Storage, state: &State) -> (res: Result<(), ContractError>)
    ensures
        res is Ok,
        final(storage)@ == config_store_spec(old(storage)@, state@),
{
    let key = config_key();
    storage.set(key.as_slice(), Record::Config(state.clone()));
    Ok(())
}

/// Reads the configuration.
pub fn read_config(storage: &Storage) -> (res: Result<State, ContractError>)
    ensures
        answers(res, read_config_spec(storage@)),
{
    let key = config_key();
    match storage.get(key.as_slice()) {
        None => Err(ContractError::NotFound { kind: RecordKind::Config }),
        Some(Record::Config(state)) => Ok(state.clone()),
        Some(Record::Draft(_)) => Err(ContractError::StorageFailure),
    }
}

/// Writes `draft` as the draft of the account at `address`, in place of any
/// earlier one.
pub fn store_draft(storage: &mut Storage, address: &Addr, draft: &Draft) -> (res: Result<
    (),
    ContractError,
>)
    ensures
        res is Ok,
        final(storage)@ == store_draft_spec(old(storage)@, address@, draft@),
{
    let key = draft_key(address);
    storage.set(key.as_slice(), Record::Draft(draft.clone()));
    Ok(())
}

/// Removes the draft of the account at `address`. An account without a draft
/// is left alone.
pub fn delete_draft(storage: &mut Storage, address: &Addr) -> (res: Result<(), ContractError>)
    ensures
        res is Ok,
        final(storage)@ == delete_draft_spec(old(storage)@, address@),
{
    let key = draft_key(address);
    storage.remove(key.as_slice());
    Ok(())
}

/// Whether anything is kept as the draft of the account at `address`.
pub fn has_draft(storage: &Storage, address: &Addr) -> (has: bool)
    ensures
        has == has_draft_spec(storage@, address@),
{
    let key = draft_key(address);
    storage.get(key.as_slice()).is_some()
}

/// Reads the draft of the account at `address`.
pub fn read_draft(storage: &Storage, address: &Addr) -> (res: Result<Draft, ContractError>)
    ensures
        answers(res, read_draft_spec(storage@, address@)),
{
    let key = draft_key(address);
    match storage.get(key.as_slice()) {
        None => Err(ContractError::NotFound { kind: RecordKind::Draft }),
        Some(Record::Draft(draft)) => Ok(draft.clone()),
        Some(Record::Config(_)) => Err(ContractError::StorageFailure),
    }
}

} // verus!
