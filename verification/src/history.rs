//! Histories: the requests that a registry has served, in order.

use vstd::prelude::*;
use crate::account::AccountId;
use crate::model::LedgerState;

verus! {

/// One request to a registry.
pub enum Operation {
    /// Mint `token_id` to `receiver`.
    Mint { receiver: AccountId, token_id: u64 },
    /// Move `token_id` from `from` to `to`.
    Transfer { from: AccountId, to: AccountId, token_id: u64 },
    /// Ask, as `spender`, whether `candidate` is approved for `token_id`.
    CheckApproval { spender: AccountId, token_id: u64, candidate: AccountId },
}

/// The state that `state` becomes when it serves `operation`.
pub open spec fn applied(state: LedgerState, operation: Operation) -> LedgerState {
    match operation {
        Operation::Mint { receiver, token_id } => state.minted(receiver, token_id),
        Operation::Transfer { from, to, token_id } => state.transferred(from, to, token_id),
        Operation::CheckApproval { spender, token_id, candidate } => state.approval_checked(
            spender,
            token_id,
            candidate,
        ),
    }
}

/// The state that `state` becomes when it serves `history` from first to
/// last.
pub open spec fn replayed(state: LedgerState, history: Seq<Operation>) -> LedgerState
    decreases history.len(),
{
    if history.len() == 0 {
        state
    } else {
        applied(replayed(state, history.drop_last()), history.last())
    }
}

/// Whether the request at position `i` of `history`, served by a registry
/// that started in `state`, adds a token to the balance of `account`: it is
/// a mint to the account, or a transfer to the account from the owner of the
/// token.
pub open spec fn credits(
    state: LedgerState,
    history: Seq<Operation>,
    i: int,
    account: AccountId,
) -> bool {
    match history[i] {
        Operation::Mint { receiver, .. } => receiver == account,
        Operation::Transfer { from, to, token_id } => to == account && replayed(
            state,
            history.take(i),
        ).owns(from, token_id),
        Operation::CheckApproval { .. } => false,
    }
}

} // verus!
