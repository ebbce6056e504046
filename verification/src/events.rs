//! The events that the registry records for its host to publish.

use vstd::prelude::*;
use crate::account::AccountId;

verus! {

/// A token was minted.
#[derive(Clone, Copy, Debug, PartialEq, Eq)]
pub struct EventMint {
    /// The account that owns the registry.
    pub owner: AccountId,
    /// The token that was minted.
    pub value: u64,
}

/// A token moved from one account to another.
#[derive(Clone, Copy, Debug, PartialEq, Eq)]
pub struct EventTransfer {
    /// The account that gave the token.
    pub from: AccountId,
    /// The account that received the token.
    pub to: AccountId,
    /// The token that moved.
    pub token_id: u64,
}

/// An approval was asked about and found to stand.
#[derive(Clone, Copy, Debug, PartialEq, Eq)]
pub struct EventApproval {
    /// The account that owns the registry.
    pub owner: AccountId,
    /// The account that asked.
    pub spender: AccountId,
    /// The token that the approval is for.
    pub token_id: u64,
    /// Whether the approval stands.
    pub approved: bool,
}

/// One entry of the registry's event log.
#[derive(Clone, Copy, Debug, PartialEq, Eq)]
pub enum Event {
    Mint(EventMint),
    Transfer(EventTransfer),
    Approval(EventApproval),
}

} // verus!
