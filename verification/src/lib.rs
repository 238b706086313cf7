//! A per-identity store of encrypted drafts with an aggregate counter.
//!
//! Every account may keep one draft: two opaque ciphertext blobs and the time
//! at which they were written. A singleton configuration record names the
//! owner of the deployment and counts the drafts. All records live in one
//! key-value [`Storage`], under keys derived from the account's address.

pub mod addr;
pub mod clock;
pub mod contract;
pub mod error;
pub mod history;
pub mod keys;
pub mod laws;
pub mod model;
pub mod msg;
pub mod state;
pub mod storage;
pub mod store;

pub use addr::Addr;
pub use contract::{
    delete_draft_handler, execute, instantiate, query, query_config, query_draft,
    store_draft_handler,
};
pub use error::{ContractError, RecordKind};
pub use keys::{config_key, draft_key};
pub use msg::{
    Attribute, ConfigResponse, DraftResponse, Env, ExecuteMsg, InstantiateMsg, MessageInfo, QueryMsg,
    QueryResponse, Response,
};
pub use state::{Draft, Record, State};
pub use storage::Storage;
pub use store::{config_store, delete_draft, has_draft, read_config, read_draft, store_draft};
