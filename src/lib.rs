//! An asset factory that sells boxes held by an inventory service and mints
//! heroes through a minting service.
//!
//! The factory's decisions are pure functions from state and host events to a
//! new state and the remote request to issue: the host that runs the
//! asynchronous calls performs each request and hands back the outcome.
pub mod calls;
pub mod contract;
pub mod error;
pub mod pool;

pub use calls::{CallResult, MintRequest, TokensQuery, TransferRequest};
pub use contract::{Contract, ContractView};
pub use error::FactoryError;
