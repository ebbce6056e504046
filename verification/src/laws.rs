//! Laws of the registry: what holds of every state and of every request,
//! proved from the model.

use vstd::prelude::*;
use crate::account::AccountId;
use crate::history::{applied, credits, replayed, Operation};
use crate::model::LedgerState;

verus! {

/// In a new registry every account has a balance of zero.
pub proof fn lemma_new_registry_has_no_balances(caller: AccountId, account: AccountId)
    ensures
        LedgerState::initial(caller).count(account) == 0,
{
}

/// Whatever a registry has served since it was created, an account that no
/// request has credited has a balance of zero.
pub proof fn lemma_uncredited_account_has_no_balance(
    caller: AccountId,
    history: Seq<Operation>,
    account: AccountId,
)
    requires
        forall|i: int|
            0 <= i < history.len() ==> !credits(LedgerState::initial(caller), history, i, account),
    ensures
        replayed(LedgerState::initial(caller), history).count(account) == 0,
    decreases history.len(),
{
    let start = LedgerState::initial(caller);
    if history.len() > 0 {
        let earlier = history.drop_last();
        assert forall|i: int| 0 <= i < earlier.len() implies !credits(
            start,
            earlier,
            i,
            account,
        ) by {
            assert(earlier.take(i) =~= history.take(i));
            assert(!credits(start, history, i, account));
        }
        lemma_uncredited_account_has_no_balance(caller, earlier, account);
        let last = history.len() - 1;
        assert(history.take(last) =~= earlier);
        assert(!credits(start, history, last, account));
    }
}

/// The first mint of a new registry leaves its receiver with a balance of
/// one and the mint counter at one.
pub proof fn lemma_first_mint(caller: AccountId, receiver: AccountId, token_id: u64)
    ensures
        LedgerState::initial(caller).minted(receiver, token_id).count(receiver) == 1,
        LedgerState::initial(caller).minted(receiver, token_id).total_minted == 1,
        LedgerState::initial(caller).minted(receiver, token_id).owns(receiver, token_id),
{
}

/// In a new registry, a token that is minted to one account and then moved
/// to another leaves the first with a balance of zero and the second with a
/// balance of one, and the move succeeds.
pub proof fn lemma_mint_then_transfer(
    caller: AccountId,
    receiver: AccountId,
    to: AccountId,
    token_id: u64,
)
    requires
        receiver != to,
    ensures
        LedgerState::initial(caller).minted(receiver, token_id).owns(receiver, token_id),
        LedgerState::initial(caller).minted(receiver, token_id).transferred(
            receiver,
            to,
            token_id,
        ).count(receiver) == 0,
        LedgerState::initial(caller).minted(receiver, token_id).transferred(
            receiver,
            to,
            token_id,
        ).count(to) == 1,
{
}

/// A request to move a token from an account that does not own it changes
/// nothing.
pub proof fn lemma_transfer_by_non_owner_changes_nothing(
    state: LedgerState,
    from: AccountId,
    to: AccountId,
    token_id: u64,
)
    requires
        !state.owns(from, token_id),
    ensures
        state.transferred(from, to, token_id) == state,
{
}

/// Minting a token that another account owns credits the receiver and hands
/// it the token, and leaves the balance of the previous owner as it was.
pub proof fn lemma_remint_keeps_previous_balance(
    state: LedgerState,
    previous: AccountId,
    receiver: AccountId,
    token_id: u64,
)
    requires
        state.owns(previous, token_id),
        receiver != previous,
    ensures
        state.minted(receiver, token_id).count(receiver) == state.count(receiver) + 1,
        state.minted(receiver, token_id).count(previous) == state.count(previous),
        state.minted(receiver, token_id).owns(receiver, token_id),
        !state.minted(receiver, token_id).owns(previous, token_id),
{
}

/// A mint changes no balance but that of its receiver.
pub proof fn lemma_mint_credits_only_receiver(
    state: LedgerState,
    receiver: AccountId,
    token_id: u64,
    other: AccountId,
)
    requires
        other != receiver,
    ensures
        state.minted(receiver, token_id).count(receiver) == state.count(receiver) + 1,
        state.minted(receiver, token_id).count(other) == state.count(other),
{
}

/// A move between two accounts, from a positive balance, takes one token
/// from the giver and adds one to the receiver: the two balances keep their
/// sum, every other balance stays, and the token has its new owner alone.
pub proof fn lemma_transfer_conserves_balances(
    state: LedgerState,
    from: AccountId,
    to: AccountId,
    token_id: u64,
    other: AccountId,
)
    requires
        state.owns(from, token_id),
        state.count(from) >= 1,
        from != to,
        other != from,
        other != to,
    ensures
        state.transferred(from, to, token_id).count(from) == state.count(from) - 1,
        state.transferred(from, to, token_id).count(to) == state.count(to) + 1,
        state.transferred(from, to, token_id).count(other) == state.count(other),
        state.transferred(from, to, token_id).owns(to, token_id),
        !state.transferred(from, to, token_id).owns(from, token_id),
{
}

/// A move from an account to itself, from a positive balance, changes no
/// balance.
pub proof fn lemma_transfer_to_self_keeps_balances(
    state: LedgerState,
    account: AccountId,
    token_id: u64,
    other: AccountId,
)
    requires
        state.owns(account, token_id),
        state.count(account) >= 1,
    ensures
        state.transferred(account, account, token_id).count(other) == state.count(other),
{
}

/// Where a token has no approval entry, nobody is approved for it, and
/// asking changes nothing.
pub proof fn lemma_no_entry_no_approval(
    state: LedgerState,
    spender: AccountId,
    token_id: u64,
    candidate: AccountId,
)
    requires
        !state.approvals.contains_key(token_id),
    ensures
        !state.approves(token_id, candidate),
        state.approval_checked(spender, token_id, candidate) == state,
{
}

/// No request adds, changes or removes an approval entry.
pub proof fn lemma_history_keeps_approvals(state: LedgerState, history: Seq<Operation>)
    ensures
        replayed(state, history).approvals == state.approvals,
        replayed(state, history).owner == state.owner,
    decreases history.len(),
{
    if history.len() > 0 {
        lemma_history_keeps_approvals(state, history.drop_last());
    }
}

/// Whatever a registry has served since it was created, nobody is approved
/// for any token.
pub proof fn lemma_created_registry_approves_nobody(
    caller: AccountId,
    history: Seq<Operation>,
    token_id: u64,
    candidate: AccountId,
)
    ensures
        !replayed(LedgerState::initial(caller), history).approves(token_id, candidate),
{
    lemma_history_keeps_approvals(LedgerState::initial(caller), history);
}

/// A mint can be served on the entries that it names alone: to mint on the
/// working set of a state and write the result back is to mint on the state.
pub proof fn lemma_mint_is_local(
    state: LedgerState,
    tokens: Set<u64>,
    accounts: Set<AccountId>,
    receiver: AccountId,
    token_id: u64,
)
    requires
        tokens.contains(token_id),
        accounts.contains(receiver),
    ensures
        state.written_back(
            state.working_set(tokens, accounts).minted(receiver, token_id),
            tokens,
            accounts,
        ) == state.minted(receiver, token_id),
{
    let part = state.working_set(tokens, accounts).minted(receiver, token_id);
    let whole = state.minted(receiver, token_id);
    let back = state.written_back(part, tokens, accounts);
    assert(back.owners =~= whole.owners);
    assert(back.balances =~= whole.balances);
    assert(back.approvals =~= whole.approvals);
    assert(back.events =~= whole.events);
}

/// A transfer can be served on the entries that it names alone, and it
/// succeeds there exactly when it succeeds on the whole state.
pub proof fn lemma_transfer_is_local(
    state: LedgerState,
    tokens: Set<u64>,
    accounts: Set<AccountId>,
    from: AccountId,
    to: AccountId,
    token_id: u64,
)
    requires
        tokens.contains(token_id),
        accounts.contains(from),
        accounts.contains(to),
    ensures
        state.working_set(tokens, accounts).owns(from, token_id) == state.owns(from, token_id),
        state.written_back(
            state.working_set(tokens, accounts).transferred(from, to, token_id),
            tokens,
            accounts,
        ) == state.transferred(from, to, token_id),
{
    let part = state.working_set(tokens, accounts).transferred(from, to, token_id);
    let whole = state.transferred(from, to, token_id);
    let back = state.written_back(part, tokens, accounts);
    assert(back.owners =~= whole.owners);
    assert(back.balances =~= whole.balances);
    assert(back.approvals =~= whole.approvals);
    assert(back.events =~= whole.events);
}

/// An approval check can be served on the entries that it names alone, and
/// its answer there is its answer on the whole state.
pub proof fn lemma_approval_check_is_local(
    state: LedgerState,
    tokens: Set<u64>,
    accounts: Set<AccountId>,
    spender: AccountId,
    token_id: u64,
    candidate: AccountId,
)
    requires
        tokens.contains(token_id),
    ensures
        state.working_set(tokens, accounts).approves(token_id, candidate) == state.approves(
            token_id,
            candidate,
        ),
        state.written_back(
            state.working_set(tokens, accounts).approval_checked(spender, token_id, candidate),
            tokens,
            accounts,
        ) == state.approval_checked(spender, token_id, candidate),
{
    let part = state.working_set(tokens, accounts).approval_checked(spender, token_id, candidate);
    let whole = state.approval_checked(spender, token_id, candidate);
    let back = state.written_back(part, tokens, accounts);
    assert(back.owners =~= whole.owners);
    assert(back.balances =~= whole.balances);
    assert(back.approvals =~= whole.approvals);
    assert(back.events =~= whole.events);
}

/// The balance of an account in a working set that holds it is its balance
/// in the whole state.
pub proof fn lemma_working_set_keeps_balances(
    state: LedgerState,
    tokens: Set<u64>,
    accounts: Set<AccountId>,
    account: AccountId,
)
    requires
        accounts.contains(account),
    ensures
        state.working_set(tokens, accounts).count(account) == state.count(account),
{
}

} // verus!
