//! Requests, the answers to them, and what the host tells about a request.

use vstd::prelude::*;

use crate::addr::Addr;

verus! {

/// What the host tells about the block in which a request runs.
#[derive(Debug, Clone, Copy, PartialEq, Eq)]
pub struct Env {
    /// The time of the block, in nanoseconds since the epoch.
    pub block_time_nanos: u64,
}

/// What the host tells about who sent a request.
#[derive(Debug, PartialEq, Eq)]
pub struct MessageInfo {
    /// The account that sent the request.
    pub sender: Addr,
}

/// The request that sets a deployment up.
#[derive(Debug, PartialEq, Eq)]
pub struct InstantiateMsg {
    /// The account that shall own the deployment. Where none is named, the
    /// sender owns it.
    pub owner: Option<Addr>,
}

/// A request that changes the storage.
#[derive(Debug, PartialEq, Eq)]
pub enum ExecuteMsg {
    /// Keeps a draft for the sender, in place of any earlier one.
    StoreDraft { encrypted_content: String, encrypted_metadata: String },
    /// Discards the sender's draft.
    DeleteDraft {  },
}

/// A request that only reads.
#[derive(Debug, PartialEq, Eq)]
pub enum QueryMsg {
    /// Asks for the draft of the account at `address`.
    GetDraft { address: Addr },
    /// Asks for the configuration.
    GetConfig {  },
}

/// The answer to [`QueryMsg::GetDraft`].
#[derive(Debug, PartialEq, Eq)]
pub struct DraftResponse {
    pub encrypted_content: String,
    pub encrypted_metadata: String,
    pub timestamp: u64,
}

impl View for DraftResponse {
    type V = crate::state::DraftView;

    open spec fn view(&self) -> crate::state::DraftView {
        crate::state::DraftView {
            encrypted_content: self.encrypted_content@,
            encrypted_metadata: self.encrypted_metadata@,
            timestamp: self.timestamp as nat,
        }
    }
}

/// The answer to [`QueryMsg::GetConfig`].
#[derive(Debug, PartialEq, Eq)]
pub struct ConfigResponse {
    pub owner: Addr,
    pub draft_count: u64,
}

impl View for ConfigResponse {
    type V = crate::state::StateView;

    open spec fn view(&self) -> crate::state::StateView {
        crate::state::StateView { owner: self.owner@, draft_count: self.draft_count as nat }
    }
}

/// The answer to a query.
#[derive(Debug, PartialEq, Eq)]
pub enum QueryResponse {
    Draft(DraftResponse),
    Config(ConfigResponse),
}

/// What a [`QueryResponse`] stands for: the record that was asked for.
impl View for QueryResponse {
    type V = crate::state::RecordView;

    open spec fn view(&self) -> crate::state::RecordView {
        match self {
            QueryResponse::Draft(draft) => crate::state::RecordView::Draft(draft@),
            QueryResponse::Config(config) => crate::state::RecordView::Config(config@),
        }
    }
}

/// One observable fact about a request that was carried out.
#[derive(Debug, PartialEq, Eq)]
pub struct Attribute {
    pub key: String,
    pub value: String,
}

impl View for Attribute {
    type V = (Seq<char>, Seq<char>);

    open spec fn view(&self) -> (Seq<char>, Seq<char>) {
        (self.key@, self.value@)
    }
}

/// The answer to a request that was carried out: the facts that it leaves
/// for whoever audits the deployment, in the order in which they were added.
#[derive(Debug, PartialEq, Eq)]
pub struct Response {
    pub attributes: Vec<Attribute>,
}

impl View for Response {
    type V = Seq<(Seq<char>, Seq<char>)>;

    open spec fn view(&self) -> Seq<(Seq<char>, Seq<char>)> {
        self.attributes@.map_values(|attribute: Attribute| attribute@)
    }
}

impl Response {
    /// An answer that states nothing.
    pub fn new() -> (response: Response)
        ensures
            response@ == Seq::<(Seq<char>, Seq<char>)>::empty(),
    {
        let response = Response { attributes: Vec::new() };
        assert(response@ =~= Seq::<(Seq<char>, Seq<char>)>::empty());
        response
    }

    /// The same answer with one more fact at its end.
    pub fn add_attribute(self, key: &str, value: &str) -> (response: Response)
        ensures
            response@ == self@.push((key@, value@)),
    {
        let mut attributes = self.attributes;
        let attribute = Attribute { key: key.to_owned(), value: value.to_owned() };
        attributes.push(attribute);
        let response = Response { attributes };
        assert(response@ =~= self@.push((key@, value@)));
        response
    }
}

} // verus!
