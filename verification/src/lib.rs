//! A minimal non-fungible-token ownership registry.
//!
//! The registry tracks which account owns which token, how many tokens each
//! account is credited with, and at most one approved spender per token.
//! Every operation carries a contract over the mathematical model of the
//! registry, [`model::LedgerState`], and [`laws`] holds what is proved of
//! that model for every state and every request.
//!
//! The registry does no input or output. Its host tells it who is calling,
//! keeps its tables, and publishes the events that it records.

pub mod account;
pub mod events;
pub mod history;
pub mod laws;
pub mod ledger;
pub mod model;
pub mod table;

pub use account::AccountId;
pub use events::{Event, EventApproval, EventMint, EventTransfer};
pub use ledger::Nftexpanded;
pub use table::Table;
