//! The records that the storage holds, and what they stand for.

use vstd::prelude::*;

use crate::addr::Addr;

verus! {

/// The singleton configuration of a deployment.
#[derive(Debug, PartialEq, Eq)]
pub struct State {
    /// The account that administers the deployment.
    pub owner: Addr,
    /// The running count of drafts.
    pub draft_count: u64,
}

/// What a [`State`] stands for.
pub struct StateView {
    pub owner: Seq<char>,
    pub draft_count: nat,
}

impl View for State {
    type V = StateView;

    open spec fn view(&self) -> StateView {
        StateView { owner: self.owner@, draft_count: self.draft_count as nat }
    }
}

impl Clone for State {
    fn clone(&self) -> (copy: State)
        ensures
            copy@ == self@,
    {
        State { owner: self.owner.clone(), draft_count: self.draft_count }
    }
}

/// The draft of one account. Both blobs are ciphertext to the store, which
/// never looks inside them.
#[derive(Debug, PartialEq, Eq)]
pub struct Draft {
    pub encrypted_content: String,
    pub encrypted_metadata: String,
    /// When the draft was written, in seconds since the epoch.
    pub timestamp: u64,
}

/// What a [`Draft`] stands for.
pub struct DraftView {
    pub encrypted_content: Seq<char>,
    pub encrypted_metadata: Seq<char>,
    pub timestamp: nat,
}

impl View for Draft {
    type V = DraftView;

    open spec fn view(&self) -> DraftView {
        DraftView {
            encrypted_content: self.encrypted_content@,
            encrypted_metadata: self.encrypted_metadata@,
            timestamp: self.timestamp as nat,
        }
    }
}

impl Clone for Draft {
    fn clone(&self) -> (copy: Draft)
        ensures
            copy@ == self@,
    {
        Draft {
            encrypted_content: self.encrypted_content.clone(),
            encrypted_metadata: self.encrypted_metadata.clone(),
            timestamp: self.timestamp,
        }
    }
}

/// A value kept in the storage.
#[derive(Debug, PartialEq, Eq)]
pub enum Record {
    Config(State),
    Draft(Draft),
}

/// What a [`Record`] stands for.
pub enum RecordView {
    Config(StateView),
    Draft(DraftView),
}

impl View for Record {
    type V = RecordView;

    open spec fn view(&self) -> RecordView {
        match self {
            Record::Config(state) => RecordView::Config(state@),
            Record::Draft(draft) => RecordView::Draft(draft@),
        }
    }
}

impl Clone for Record {
    fn clone(&self) -> (copy: Record)
        ensures
            copy@ == self@,
    {
        match self {
            Record::Config(state) => Record::Config(state.clone()),
            Record::Draft(draft) => Record::Draft(draft.clone()),
        }
    }
}

} // verus!
