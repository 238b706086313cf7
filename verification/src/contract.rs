//! The requests that a deployment answers.
//!
//! A request that fails leaves the storage exactly as it found it: every
//! condition is tested before the first write.

use vstd::prelude::*;

use crate::addr::Addr;
use crate::clock::{block_seconds, seconds_spec};
use crate::error::{ContractError, RecordKind};
use crate::model::{
    answers, can_count, delete_draft_attributes, delete_draft_handler_spec,
    instantiate_attributes, instantiate_spec, query_config_spec, query_draft_spec,
    store_draft_attributes, store_draft_handler_spec,
};
use crate::msg::{
    ConfigResponse, DraftResponse, Env, ExecuteMsg, InstantiateMsg, MessageInfo, QueryMsg,
    QueryResponse, Response,
};
use crate::state::{Draft, RecordView, State};
use crate::storage::Storage;
use crate::store::{config_store, delete_draft, has_draft, read_config, read_draft, store_draft};

verus! {

/// What the owner named in a set-up request stands for.
pub open spec fn owner_view(owner: Option<Addr>) -> Option<Seq<char>> {
    match owner {
        Some(owner) => Some(owner@),
        None => None,
    }
}

/// What carrying out `msg` for `sender` at the block time `nanos` does to the
/// storage.
pub open spec fn execute_spec(
    storage: Map<Seq<u8>, RecordView>,
    nanos: u64,
    sender: Seq<char>,
    msg: ExecuteMsg,
) -> Result<Map<Seq<u8>, RecordView>, ContractError> {
    match msg {
        ExecuteMsg::StoreDraft { encrypted_content, encrypted_metadata } => {
            store_draft_handler_spec(
                storage,
                sender,
                encrypted_content@,
                encrypted_metadata@,
                seconds_spec(nanos),
            )
        },
        ExecuteMsg::DeleteDraft {  } => delete_draft_handler_spec(storage, sender),
    }
}

/// What carrying out `msg` for `sender` leaves for the audit.
pub open spec fn execute_attributes(sender: Seq<char>, msg: ExecuteMsg) -> Seq<
    (Seq<char>, Seq<char>),
> {
    match msg {
        ExecuteMsg::StoreDraft { .. } => store_draft_attributes(sender),
        ExecuteMsg::DeleteDraft {  } => delete_draft_attributes(sender),
    }
}

/// The answer that `msg` is owed.
pub open spec fn query_spec(storage: Map<Seq<u8>, RecordView>, msg: QueryMsg) -> Result<
    RecordView,
    ContractError,
> {
    match msg {
        QueryMsg::GetDraft { address } => match query_draft_spec(storage, address@) {
            Ok(draft) => Ok(RecordView::Draft(draft)),
            Err(error) => Err(error),
        },
        QueryMsg::GetConfig {  } => match query_config_spec(storage) {
            Ok(state) => Ok(RecordView::Config(state)),
            Err(error) => Err(error),
        },
    }
}

/// Whether a request ended as it should: with `want` as the storage and
/// `attributes` as the answer, or with the error and the storage untouched.
pub open spec fn carried_out(
    res: Result<Response, ContractError>,
    before: Map<Seq<u8>, RecordView>,
    after: Map<Seq<u8>, RecordView>,
    want: Result<Map<Seq<u8>, RecordView>, ContractError>,
    attributes: Seq<(Seq<char>, Seq<char>)>,
) -> bool {
    match want {
        Ok(storage) => {
            &&& res matches Ok(response)
            &&& response@ == attributes
            &&& after == storage
        },
        Err(error) => {
            &&& res matches Err(got)
            &&& got == error
            &&& after == before
        },
    }
}

/// Sets a deployment up: writes the configuration, with no drafts counted and
/// with the owner that `msg` names, or the sender where it names none.
pub fn instantiate(
    storage: &mut Storage,
    _env: Env,
    info: MessageInfo,
    msg: InstantiateMsg,
) -> (res: Result<Response, ContractError>)
    ensures
        carried_out(
            res,
            old(storage)@,
            final(storage)@,
            Ok(instantiate_spec(old(storage)@, info.sender@, owner_view(msg.owner))),
            instantiate_attributes(),
        ),
{
    let owner = match msg.owner {
        Some(owner) => owner,
        None => info.sender.clone(),
    };
    let state = State { owner, draft_count: 0 };
    match config_store(storage, &state) {
        Err(error) => Err(error),
        Ok(()) => {
            let response = Response::new().add_attribute("action", "instantiate");
            assert(response@ =~= instantiate_attributes());
            Ok(response)
        },
    }
}

/// Carries out a request that changes the storage.
///
/// Keeping a draft counts one draft more, so the count must have room for it.
pub fn execute(storage: &mut Storage, env: Env, info: MessageInfo, msg: ExecuteMsg) -> (res:
    Result<Response, ContractError>)
    requires
        msg is StoreDraft ==> can_count(old(storage)@),
    ensures
        carried_out(
            res,
            old(storage)@,
            final(storage)@,
            execute_spec(old(storage)@, env.block_time_nanos, info.sender@, msg),
            execute_attributes(info.sender@, msg),
        ),
{
    match msg {
        ExecuteMsg::StoreDraft { encrypted_content, encrypted_metadata } => {
            store_draft_handler(storage, env, info, encrypted_content, encrypted_metadata)
        },
        ExecuteMsg::DeleteDraft {  } => delete_draft_handler(storage, env, info),
    }
}

/// Keeps a draft for the sender, stamped with the time of the block, and
/// counts it.
pub fn store_draft_handler(
    storage: &mut Storage,
    env: Env,
    info: MessageInfo,
    encrypted_content: String,
    encrypted_metadata: String,
) -> (res: Result<Response, ContractError>)
    requires
        can_count(old(storage)@),
    ensures
        carried_out(
            res,
            old(storage)@,
            final(storage)@,
            store_draft_handler_spec(
                old(storage)@,
                info.sender@,
                encrypted_content@,
                encrypted_metadata@,
                seconds_spec(env.block_time_nanos),
            ),
            store_draft_attributes(info.sender@),
        ),
{
    let mut state = match read_config(storage) {
        Ok(state) => state,
        Err(error) => {
            return Err(error);
        },
    };
    let draft = Draft {
        encrypted_content,
        encrypted_metadata,
        timestamp: block_seconds(env.block_time_nanos),
    };
    match store_draft(storage, &info.sender, &draft) {
        Ok(()) => {},
        Err(error) => {
            return Err(error);
        },
    }
    state.draft_count = state.draft_count + 1;
    match config_store(storage, &state) {
        Ok(()) => {},
        Err(error) => {
            return Err(error);
        },
    }
    let response = Response::new().add_attribute("action", "store_draft").add_attribute(
        "sender",
        info.sender.as_str(),
    );
    assert(response@ =~= store_draft_attributes(info.sender@));
    Ok(response)
}

/// Discards the sender's draft and counts one draft less, but never less
/// than none.
pub fn delete_draft_handler(storage: &mut Storage, _env: Env, info: MessageInfo) -> (res: Result<
    Response,
    ContractError,
>)
    ensures
        carried_out(
            res,
            old(storage)@,
            final(storage)@,
            delete_draft_handler_spec(old(storage)@, info.sender@),
            delete_draft_attributes(info.sender@),
        ),
{
    if !has_draft(storage, &info.sender) {
        return Err(ContractError::NotFound { kind: RecordKind::Draft });
    }
    let mut state = match read_config(storage) {
        Ok(state) => state,
        Err(error) => {
            return Err(error);
        },
    };
    match delete_draft(storage, &info.sender) {
        Ok(()) => {},
        Err(error) => {
            return Err(error);
        },
    }
    state.draft_count = state.draft_count.saturating_sub(1);
    match config_store(storage, &state) {
        Ok(()) => {},
        Err(error) => {
            return Err(error);
        },
    }
    let response = Response::new().add_attribute("action", "delete_draft").add_attribute(
        "sender",
        info.sender.as_str(),
    );
    assert(response@ =~= delete_draft_attributes(info.sender@));
    Ok(response)
}

/// Answers a request that only reads.
pub fn query(storage: &Storage, _env: Env, msg: QueryMsg) -> (res: Result<
    QueryResponse,
    ContractError,
>)
    ensures
        answers(res, query_spec(storage@, msg)),
{
    match msg {
        QueryMsg::GetDraft { address } => match query_draft(storage, address) {
            Ok(draft) => Ok(QueryResponse::Draft(draft)),
            Err(error) => Err(error),
        },
        QueryMsg::GetConfig {  } => match query_config(storage) {
            Ok(config) => Ok(QueryResponse::Config(config)),
            Err(error) => Err(error),
        },
    }
}

/// The draft of the account at `address`, as it was stored.
pub fn query_draft(storage: &Storage, address: Addr) -> (res: Result<DraftResponse, ContractError>)
    ensures
        answers(res, query_draft_spec(storage@, address@)),
{
    if !has_draft(storage, &address) {
        return Err(ContractError::NotFound { kind: RecordKind::Draft });
    }
    match read_draft(storage, &address) {
        Err(error) => Err(error),
        Ok(draft) => Ok(
            DraftResponse {
                encrypted_content: draft.encrypted_content,
                encrypted_metadata: draft.encrypted_metadata,
                timestamp: draft.timestamp,
            },
        ),
    }
}

/// The configuration: the owner and the count of drafts.
pub fn query_config(storage: &Storage) -> (res: Result<ConfigResponse, ContractError>)
    ensures
        answers(res, query_config_spec(storage@)),
{
    match read_config(storage) {
        Err(error) => Err(error),
        Ok(state) => Ok(ConfigResponse { owner: state.owner, draft_count: state.draft_count }),
    }
}

} // verus!
