//! Runs of requests.
//!
//! A deployment sees one request after another. This module describes what a
//! whole run of storing and discarding does to a storage, so that what holds
//! after any number of requests can be stated.

use vstd::prelude::*;

use crate::keys::is_draft_key;
use crate::model::{
    delete_draft_handler_spec, read_config_spec, store_draft_handler_spec,
};
use crate::state::RecordView;

verus! {

/// One request that changes the storage, as the store sees it.
pub enum Request {
    /// `sender` keeps a draft at the time `seconds`.
    Store {
        sender: Seq<char>,
        encrypted_content: Seq<char>,
        encrypted_metadata: Seq<char>,
        seconds: nat,
    },
    /// `sender` discards its draft.
    Delete { sender: Seq<char> },
}

/// The request that the store sees when `sender` sends `msg` in a block of
/// the time `nanos`.
pub open spec fn request_of(nanos: u64, sender: Seq<char>, msg: crate::msg::ExecuteMsg) -> Request {
    match msg {
        crate::msg::ExecuteMsg::StoreDraft { encrypted_content, encrypted_metadata } => {
            Request::Store {
                sender,
                encrypted_content: encrypted_content@,
                encrypted_metadata: encrypted_metadata@,
                seconds: crate::clock::seconds_spec(nanos),
            }
        },
        crate::msg::ExecuteMsg::DeleteDraft {  } => Request::Delete { sender },
    }
}

/// What carrying out `request` does to the storage, or why it fails.
pub open spec fn outcome(storage: Map<Seq<u8>, RecordView>, request: Request) -> Result<
    Map<Seq<u8>, RecordView>,
    crate::error::ContractError,
> {
    match request {
        Request::Store { sender, encrypted_content, encrypted_metadata, seconds } => {
            store_draft_handler_spec(
                storage,
                sender,
                encrypted_content,
                encrypted_metadata,
                seconds,
            )
        },
        Request::Delete { sender } => delete_draft_handler_spec(storage, sender),
    }
}

/// The storage after `request`: a request that fails leaves it as it was.
pub open spec fn step(storage: Map<Seq<u8>, RecordView>, request: Request) -> Map<
    Seq<u8>,
    RecordView,
> {
    match outcome(storage, request) {
        Ok(after) => after,
        Err(_) => storage,
    }
}

/// The storage after the requests of `requests`, one after another.
pub open spec fn run(storage: Map<Seq<u8>, RecordView>, requests: Seq<Request>) -> Map<
    Seq<u8>,
    RecordView,
>
    decreases requests.len(),
{
    if requests.len() == 0 {
        storage
    } else {
        step(run(storage, requests.drop_last()), requests.last())
    }
}

/// How many requests to keep a draft succeed in the run.
pub open spec fn stores(storage: Map<Seq<u8>, RecordView>, requests: Seq<Request>) -> nat
    decreases requests.len(),
{
    if requests.len() == 0 {
        0
    } else {
        let earlier = requests.drop_last();
        let counted = requests.last() is Store && outcome(
            run(storage, earlier),
            requests.last(),
        ) is Ok;
        stores(storage, earlier) + if counted {
            1nat
        } else {
            0nat
        }
    }
}

/// How many requests to discard a draft succeed in the run.
pub open spec fn deletes(storage: Map<Seq<u8>, RecordView>, requests: Seq<Request>) -> nat
    decreases requests.len(),
{
    if requests.len() == 0 {
        0
    } else {
        let earlier = requests.drop_last();
        let counted = requests.last() is Delete && outcome(
            run(storage, earlier),
            requests.last(),
        ) is Ok;
        deletes(storage, earlier) + if counted {
            1nat
        } else {
            0nat
        }
    }
}

/// Whether every request to keep a draft comes, at its moment in the run,
/// from an account that has no draft.
pub open spec fn stores_are_new(storage: Map<Seq<u8>, RecordView>, requests: Seq<Request>) -> bool
    decreases requests.len(),
{
    if requests.len() == 0 {
        true
    } else {
        let earlier = requests.drop_last();
        &&& stores_are_new(storage, earlier)
        &&& requests.last() matches Request::Store { sender, .. } ==> !crate::model::has_draft_spec(
            run(storage, earlier),
            sender,
        )
    }
}

/// Whether no two requests to keep a draft come from the same account.
pub open spec fn senders_differ(requests: Seq<Request>) -> bool {
    forall|i: int, j: int|
        0 <= i < j < requests.len() ==> (#[trigger] requests[i] matches Request::Store {
            sender: first,
            ..
        } ==> (#[trigger] requests[j] matches Request::Store { sender: second, .. } ==> first
            != second))
}

/// The keys that lie in the namespace of drafts and hold something.
pub open spec fn draft_keys(storage: Map<Seq<u8>, RecordView>) -> Set<Seq<u8>> {
    storage.dom().filter(|key: Seq<u8>| is_draft_key(key))
}

/// The count that the configuration holds.
pub open spec fn draft_count(storage: Map<Seq<u8>, RecordView>) -> nat
    recommends
        read_config_spec(storage) is Ok,
{
    match read_config_spec(storage) {
        Ok(state) => state.draft_count,
        Err(_) => 0,
    }
}

/// Whether the configuration is there and counts exactly the drafts that the
/// storage holds.
pub open spec fn counts_drafts(storage: Map<Seq<u8>, RecordView>) -> bool {
    &&& storage.dom().finite()
    &&& read_config_spec(storage) is Ok
    &&& draft_count(storage) == draft_keys(storage).len()
}

} // verus!
