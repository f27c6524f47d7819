//! An escrow for mentoring sessions: a learner's deposit is held by the contract
//! until it is released to the mentor, refunded, or split between the two.

pub mod call;
pub mod contract;
pub mod error;
pub mod fees;
pub mod host;
pub mod laws;
pub mod ledger;
pub mod model;
pub mod types;

pub use call::Call;
pub use contract::EscrowContract;
pub use error::EscrowError;
pub use host::{Env, Event, HostOp, Outcome, TokenBalance};
pub use ledger::{DataKey, Entry, Ledger};
pub use types::{Address, Bytes32, Escrow, EscrowStatus, Symbol};
