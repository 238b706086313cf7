//! What holds of the store, whatever the requests.

use vstd::prelude::*;

use crate::error::{ContractError, RecordKind};
use crate::contract::execute_spec;
use crate::history::{
    counts_drafts, deletes, draft_count, draft_keys, outcome, request_of, run, senders_differ,
    step, stores, stores_are_new, Request,
};
use crate::keys::{
    config_key_spec, draft_key_spec, is_draft_key, lemma_draft_key_injective,
    lemma_draft_key_not_config,
};
use crate::model::{
    decrement, delete_draft_handler_spec, has_draft_spec, instantiate_spec, query_config_spec,
    query_draft_spec, read_config_spec, store_draft_handler_spec,
};
use crate::state::{DraftView, RecordView, StateView};

verus! {

/// Whether the storage holds nothing in the namespace of drafts.
pub open spec fn holds_no_draft(storage: Map<Seq<u8>, RecordView>) -> bool {
    forall|key: Seq<u8>| storage.contains_key(key) ==> !is_draft_key(key)
}

/// A draft that was stored is read back as it was given: the same content,
/// the same metadata, and the time of the request. Storing succeeds wherever
/// the configuration can be read.
pub proof fn lemma_store_then_query(
    storage: Map<Seq<u8>, RecordView>,
    sender: Seq<char>,
    encrypted_content: Seq<char>,
    encrypted_metadata: Seq<char>,
    seconds: nat,
)
    ensures
        match store_draft_handler_spec(
            storage,
            sender,
            encrypted_content,
            encrypted_metadata,
            seconds,
        ) {
            Ok(after) => query_draft_spec(after, sender) == Ok::<DraftView, ContractError>(
                DraftView { encrypted_content, encrypted_metadata, timestamp: seconds },
            ),
            Err(error) => read_config_spec(storage) == Err::<StateView, ContractError>(error),
        },
{
    lemma_draft_key_not_config(sender);
}

/// Storing a draft for one account leaves the drafts of all others as they
/// were.
pub proof fn lemma_store_keeps_others(
    storage: Map<Seq<u8>, RecordView>,
    sender: Seq<char>,
    encrypted_content: Seq<char>,
    encrypted_metadata: Seq<char>,
    seconds: nat,
    other: Seq<char>,
)
    requires
        other != sender,
    ensures
        store_draft_handler_spec(
            storage,
            sender,
            encrypted_content,
            encrypted_metadata,
            seconds,
        ) matches Ok(after) ==> query_draft_spec(after, other) == query_draft_spec(storage, other),
{
    lemma_draft_key_not_config(other);
    lemma_draft_key_injective(sender, other);
}

/// Writing a draft never touches the configuration: reading the
/// configuration after the draft was written gives what it gave before.
pub proof fn lemma_draft_leaves_config(
    storage: Map<Seq<u8>, RecordView>,
    address: Seq<char>,
    draft: DraftView,
)
    ensures
        read_config_spec(crate::model::store_draft_spec(storage, address, draft))
            == read_config_spec(storage),
        read_config_spec(crate::model::delete_draft_spec(storage, address)) == read_config_spec(
            storage,
        ),
{
    lemma_draft_key_not_config(address);
}

/// An account without a draft is told so.
pub proof fn lemma_query_without_draft(storage: Map<Seq<u8>, RecordView>, address: Seq<char>)
    ensures
        !has_draft_spec(storage, address) <==> query_draft_spec(storage, address) == Err::<
            DraftView,
            ContractError,
        >(ContractError::NotFound { kind: RecordKind::Draft }),
{
}

/// Discarding where there is no draft fails, and changes nothing: neither
/// the count nor anything else in the storage.
pub proof fn lemma_delete_without_draft(storage: Map<Seq<u8>, RecordView>, sender: Seq<char>)
    requires
        !has_draft_spec(storage, sender),
    ensures
        delete_draft_handler_spec(storage, sender) == Err::<
            Map<Seq<u8>, RecordView>,
            ContractError,
        >(ContractError::NotFound { kind: RecordKind::Draft }),
        step(storage, Request::Delete { sender }) == storage,
        draft_count(step(storage, Request::Delete { sender })) == draft_count(storage),
{
}

/// Discarding a draft takes it away and lowers the count by one, but never
/// below nothing.
pub proof fn lemma_delete_then_query(storage: Map<Seq<u8>, RecordView>, sender: Seq<char>)
    requires
        has_draft_spec(storage, sender),
        read_config_spec(storage) is Ok,
    ensures
        delete_draft_handler_spec(storage, sender) matches Ok(after) && {
            &&& query_draft_spec(after, sender) == Err::<DraftView, ContractError>(
                ContractError::NotFound { kind: RecordKind::Draft },
            )
            &&& read_config_spec(after) is Ok
            &&& draft_count(after) == decrement(draft_count(storage))
        },
{
    lemma_draft_key_not_config(sender);
}

/// Before the set-up there is no configuration to read. After it the
/// configuration names the owner that was asked for, or the sender where none
/// was, and counts no drafts.
pub proof fn lemma_config_after_instantiate(
    storage: Map<Seq<u8>, RecordView>,
    sender: Seq<char>,
    owner: Option<Seq<char>>,
)
    ensures
        !storage.contains_key(config_key_spec()) ==> query_config_spec(storage) == Err::<
            StateView,
            ContractError,
        >(ContractError::NotFound { kind: RecordKind::Config }),
        query_config_spec(instantiate_spec(storage, sender, owner)) == Ok::<
            StateView,
            ContractError,
        >(
            StateView {
                owner: match owner {
                    Some(owner) => owner,
                    None => sender,
                },
                draft_count: 0,
            },
        ),
{
}

/// A deployment that was set up on an empty storage counts its drafts
/// rightly: it has none.
pub proof fn lemma_fresh_deployment(sender: Seq<char>, owner: Option<Seq<char>>)
    ensures
        holds_no_draft(instantiate_spec(Map::empty(), sender, owner)),
        counts_drafts(instantiate_spec(Map::empty(), sender, owner)),
        draft_count(instantiate_spec(Map::empty(), sender, owner)) == 0,
{
    let storage = instantiate_spec(Map::<Seq<u8>, RecordView>::empty(), sender, owner);
    lemma_draft_key_not_config(sender);
    assert(storage.dom() =~= Set::<Seq<u8>>::empty().insert(config_key_spec()));
    assert(draft_keys(storage) =~= Set::<Seq<u8>>::empty());
}

/// What `execute` does to the storage is what the run of that one request
/// does to it.
pub proof fn lemma_execute_is_one_step(
    storage: Map<Seq<u8>, RecordView>,
    nanos: u64,
    sender: Seq<char>,
    msg: crate::msg::ExecuteMsg,
)
    ensures
        execute_spec(storage, nanos, sender, msg) == outcome(
            storage,
            request_of(nanos, sender, msg),
        ),
        run(storage, seq![request_of(nanos, sender, msg)]) == step(
            storage,
            request_of(nanos, sender, msg),
        ),
{
    let requests = seq![request_of(nanos, sender, msg)];
    assert(requests.drop_last() =~= Seq::<Request>::empty());
    assert(run(storage, requests.drop_last()) == storage);
}

/// Once the configuration can be read it can be read after any run. No
/// request changes the owner. The count never falls short of what it was,
/// raised by the drafts stored and lowered by the drafts discarded: it stops
/// at nothing where more are discarded than were counted.
pub proof fn lemma_run_keeps_config(storage: Map<Seq<u8>, RecordView>, requests: Seq<Request>)
    requires
        read_config_spec(storage) is Ok,
    ensures
        read_config_spec(run(storage, requests)) matches Ok(config) && {
            &&& config.owner == read_config_spec(storage)->Ok_0.owner
            &&& config.draft_count + deletes(storage, requests) >= draft_count(storage) + stores(
                storage,
                requests,
            )
            &&& config.draft_count <= draft_count(storage) + stores(storage, requests)
        },
    decreases requests.len(),
{
    if requests.len() > 0 {
        lemma_run_keeps_config(storage, requests.drop_last());
        match requests.last() {
            Request::Store { sender, .. } => {
                lemma_draft_key_not_config(sender);
            },
            Request::Delete { sender } => {
                lemma_draft_key_not_config(sender);
            },
        }
    }
}

/// A first draft for an account raises both the count and the number of
/// drafts by one.
proof fn lemma_store_counts(
    storage: Map<Seq<u8>, RecordView>,
    sender: Seq<char>,
    encrypted_content: Seq<char>,
    encrypted_metadata: Seq<char>,
    seconds: nat,
)
    requires
        counts_drafts(storage),
        !has_draft_spec(storage, sender),
    ensures
        store_draft_handler_spec(
            storage,
            sender,
            encrypted_content,
            encrypted_metadata,
            seconds,
        ) matches Ok(after) && counts_drafts(after) && draft_count(after) == draft_count(storage)
            + 1,
{
    lemma_draft_key_not_config(sender);
    let after = store_draft_handler_spec(
        storage,
        sender,
        encrypted_content,
        encrypted_metadata,
        seconds,
    )->Ok_0;
    let key = draft_key_spec(sender);
    storage.dom().lemma_len_filter(|key: Seq<u8>| is_draft_key(key));
    assert(draft_keys(after) =~= draft_keys(storage).insert(key));
}

/// Discarding a draft lowers both the count and the number of drafts by one.
proof fn lemma_delete_counts(storage: Map<Seq<u8>, RecordView>, sender: Seq<char>)
    requires
        counts_drafts(storage),
        has_draft_spec(storage, sender),
    ensures
        delete_draft_handler_spec(storage, sender) matches Ok(after) && counts_drafts(after)
            && draft_count(after) + 1 == draft_count(storage),
{
    lemma_draft_key_not_config(sender);
    let after = delete_draft_handler_spec(storage, sender)->Ok_0;
    let key = draft_key_spec(sender);
    storage.dom().lemma_len_filter(|key: Seq<u8>| is_draft_key(key));
    assert(draft_keys(storage).contains(key));
    assert(draft_keys(after) =~= draft_keys(storage).remove(key));
}

/// Where the count is right at the start, and drafts are only stored for
/// accounts that have none, the count stays right through any run: it is the
/// number of drafts in the storage, and it has gone up by the drafts stored
/// and down by the drafts discarded.
pub proof fn lemma_run_counts(storage: Map<Seq<u8>, RecordView>, requests: Seq<Request>)
    requires
        counts_drafts(storage),
        stores_are_new(storage, requests),
    ensures
        counts_drafts(run(storage, requests)),
        draft_count(run(storage, requests)) + deletes(storage, requests) == draft_count(storage)
            + stores(storage, requests),
    decreases requests.len(),
{
    if requests.len() > 0 {
        let earlier = requests.drop_last();
        lemma_run_counts(storage, earlier);
        let before = run(storage, earlier);
        match requests.last() {
            Request::Store { sender, encrypted_content, encrypted_metadata, seconds } => {
                lemma_store_counts(before, sender, encrypted_content, encrypted_metadata, seconds);
            },
            Request::Delete { sender } => {
                if has_draft_spec(before, sender) {
                    lemma_delete_counts(before, sender);
                }
            },
        }
    }
}

/// Every draft in the storage after a run was either there at the start or
/// stored in the run by the account it belongs to.
pub proof fn lemma_drafts_come_from_stores(
    storage: Map<Seq<u8>, RecordView>,
    requests: Seq<Request>,
    key: Seq<u8>,
)
    requires
        is_draft_key(key),
        run(storage, requests).contains_key(key),
    ensures
        storage.contains_key(key) || exists|i: int|
            0 <= i < requests.len() && (#[trigger] requests[i] matches Request::Store {
                sender,
                ..
            } && key == draft_key_spec(sender)),
    decreases requests.len(),
{
    if requests.len() > 0 {
        let earlier = requests.drop_last();
        let before = run(storage, earlier);
        let last = requests.len() - 1;
        lemma_draft_key_not_config(seq![]);
        let from_last = requests[last] matches Request::Store { sender, .. } && key
            == draft_key_spec(sender);
        if !from_last {
            assert(before.contains_key(key));
            lemma_drafts_come_from_stores(storage, earlier, key);
            if !storage.contains_key(key) {
                let i = choose|i: int|
                    0 <= i < earlier.len() && (#[trigger] earlier[i] matches Request::Store {
                        sender,
                        ..
                    } && key == draft_key_spec(sender));
                assert(requests[i] == earlier[i]);
            }
        }
    }
}

/// An account for which nothing was ever stored has no draft.
pub proof fn lemma_never_stored(
    storage: Map<Seq<u8>, RecordView>,
    requests: Seq<Request>,
    address: Seq<char>,
)
    requires
        !has_draft_spec(storage, address),
        forall|i: int|
            0 <= i < requests.len() ==> (#[trigger] requests[i] matches Request::Store {
                sender,
                ..
            } ==> sender != address),
    ensures
        query_draft_spec(run(storage, requests), address) == Err::<DraftView, ContractError>(
            ContractError::NotFound { kind: RecordKind::Draft },
        ),
{
    let key = draft_key_spec(address);
    lemma_draft_key_not_config(address);
    if run(storage, requests).contains_key(key) {
        lemma_drafts_come_from_stores(storage, requests, key);
        let i = choose|i: int|
            0 <= i < requests.len() && (#[trigger] requests[i] matches Request::Store {
                sender,
                ..
            } && key == draft_key_spec(sender));
        lemma_draft_key_injective(requests[i]->Store_sender, address);
    }
}

/// In a storage without drafts, requests to store that all come from
/// different accounts each come from an account that has no draft.
pub proof fn lemma_different_senders_are_new(
    storage: Map<Seq<u8>, RecordView>,
    requests: Seq<Request>,
)
    requires
        holds_no_draft(storage),
        senders_differ(requests),
    ensures
        stores_are_new(storage, requests),
    decreases requests.len(),
{
    if requests.len() > 0 {
        let earlier = requests.drop_last();
        assert forall|i: int| 0 <= i < earlier.len() implies #[trigger] earlier[i]
            == requests[i] by {}
        assert(senders_differ(earlier));
        lemma_different_senders_are_new(storage, earlier);
        let last = requests.len() - 1;
        if let Request::Store { sender, .. } = requests[last] {
            let key = draft_key_spec(sender);
            lemma_draft_key_not_config(sender);
            if run(storage, earlier).contains_key(key) {
                lemma_drafts_come_from_stores(storage, earlier, key);
                let i = choose|i: int|
                    0 <= i < earlier.len() && (#[trigger] earlier[i] matches Request::Store {
                        sender,
                        ..
                    } && key == draft_key_spec(sender));
                assert(earlier[i] == requests[i]);
                lemma_draft_key_injective(requests[i]->Store_sender, sender);
            }
        }
    }
}

/// After a set-up on an empty storage, and then any run in which the drafts
/// stored all come from different accounts, the count is the number of drafts
/// stored less the number discarded, and no more were discarded than stored.
pub proof fn lemma_count_is_stores_less_deletes(
    sender: Seq<char>,
    owner: Option<Seq<char>>,
    requests: Seq<Request>,
)
    requires
        senders_differ(requests),
    ensures
        ({
            let start = instantiate_spec(Map::empty(), sender, owner);
            &&& deletes(start, requests) <= stores(start, requests)
            &&& query_config_spec(run(start, requests)) matches Ok(config)
            &&& config.draft_count == stores(start, requests) - deletes(start, requests)
            &&& config.draft_count == draft_keys(run(start, requests)).len()
        }),
{
    let start = instantiate_spec(Map::<Seq<u8>, RecordView>::empty(), sender, owner);
    lemma_fresh_deployment(sender, owner);
    lemma_different_senders_are_new(start, requests);
    lemma_run_counts(start, requests);
}

} // verus!
