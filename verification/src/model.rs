//! The mathematical model of the registry.
//!
//! [`LedgerState`] is what a registry is, seen as plain maps, and its
//! methods say what each operation makes of a state. The contracts of the
//! executable registry are written over them.

use vstd::prelude::*;
use crate::account::AccountId;
use crate::events::{Event, EventApproval, EventMint, EventTransfer};

verus! {

/// The token that a new registry assigns to the account that created it.
pub const SENTINEL_TOKEN: u64 = 0;

/// A balance after one token has left it. A balance of zero stays at zero.
pub open spec fn debited(balance: nat) -> nat {
    if balance == 0 {
        0
    } else {
        (balance - 1) as nat
    }
}

/// The balance that `balances` records for `account`: zero where it has no
/// entry.
pub open spec fn balance_in(balances: Map<AccountId, nat>, account: AccountId) -> nat {
    if balances.contains_key(account) {
        balances[account]
    } else {
        0
    }
}

/// The state of a registry.
pub struct LedgerState {
    /// The account that created the registry.
    pub owner: AccountId,
    /// How many times a token has been minted.
    pub total_minted: nat,
    /// The owner of each token that has one.
    pub owners: Map<u64, AccountId>,
    /// The recorded balance of each account that has an entry.
    pub balances: Map<AccountId, nat>,
    /// The approved spender of each token that has one.
    pub approvals: Map<u64, AccountId>,
    /// The events recorded since the log was last taken, oldest first.
    pub events: Seq<Event>,
}

impl LedgerState {
    /// The state of a registry that `caller` has just created: the caller
    /// owns the sentinel token, and has a balance entry of zero.
    pub open spec fn initial(caller: AccountId) -> LedgerState {
        LedgerState {
            owner: caller,
            total_minted: 0,
            owners: Map::empty().insert(SENTINEL_TOKEN, caller),
            balances: Map::empty().insert(caller, 0nat),
            approvals: Map::empty(),
            events: Seq::empty(),
        }
    }

    /// The balance of `account`: zero where it has no entry.
    pub open spec fn count(self, account: AccountId) -> nat {
        balance_in(self.balances, account)
    }

    /// Whether `token_id` has an owner and that owner is `account`.
    pub open spec fn owns(self, account: AccountId, token_id: u64) -> bool {
        self.owners.contains_key(token_id) && self.owners[token_id] == account
    }

    /// Whether `token_id` has an approved spender and that spender is
    /// `candidate`.
    pub open spec fn approves(self, token_id: u64, candidate: AccountId) -> bool {
        self.approvals.contains_key(token_id) && self.approvals[token_id] == candidate
    }

    /// The state after `token_id` has been minted to `receiver`.
    ///
    /// The token goes to `receiver` whether or not it had an owner. A
    /// previous owner keeps the balance it had.
    pub open spec fn minted(self, receiver: AccountId, token_id: u64) -> LedgerState {
        LedgerState {
            total_minted: self.total_minted + 1,
            owners: self.owners.insert(token_id, receiver),
            balances: self.balances.insert(receiver, self.count(receiver) + 1),
            events: self.events.push(Event::Mint(EventMint { owner: self.owner, value: token_id })),
            ..self
        }
    }

    /// The state after a request to move `token_id` from `from` to `to`.
    ///
    /// Where `from` does not own the token, nothing changes. Otherwise the
    /// token goes to `to`, the balance of `from` is debited, clamped at
    /// zero, and then the balance of `to` is credited.
    pub open spec fn transferred(self, from: AccountId, to: AccountId, token_id: u64) -> LedgerState {
        if self.owns(from, token_id) {
            let after_debit = self.balances.insert(from, debited(self.count(from)));
            LedgerState {
                owners: self.owners.insert(token_id, to),
                balances: after_debit.insert(to, balance_in(after_debit, to) + 1),
                events: self.events.push(Event::Transfer(EventTransfer { from, to, token_id })),
                ..self
            }
        } else {
            self
        }
    }

    /// The state after `spender` has asked whether `candidate` is approved
    /// for `token_id`. An approval that stands is recorded as an event; a
    /// question that fails leaves no trace.
    pub open spec fn approval_checked(
        self,
        spender: AccountId,
        token_id: u64,
        candidate: AccountId,
    ) -> LedgerState {
        if self.approves(token_id, candidate) {
            LedgerState {
                events: self.events.push(
                    Event::Approval(
                        EventApproval { owner: self.owner, spender, token_id, approved: true },
                    ),
                ),
                ..self
            }
        } else {
            self
        }
    }

    /// The state after the event log has been handed out.
    pub open spec fn events_taken(self) -> LedgerState {
        LedgerState { events: Seq::empty(), ..self }
    }

    /// The part of the state that names only the given tokens and accounts:
    /// their entries and the two scalars, with an empty event log.
    pub open spec fn working_set(self, tokens: Set<u64>, accounts: Set<AccountId>) -> LedgerState {
        LedgerState {
            owners: self.owners.restrict(tokens),
            balances: self.balances.restrict(accounts),
            approvals: self.approvals.restrict(tokens),
            events: Seq::empty(),
            ..self
        }
    }

    /// The state with the entries of the given tokens and accounts, and the
    /// two scalars, replaced by those of `part`, and the events of `part`
    /// appended to the log.
    pub open spec fn written_back(
        self,
        part: LedgerState,
        tokens: Set<u64>,
        accounts: Set<AccountId>,
    ) -> LedgerState {
        LedgerState {
            owner: part.owner,
            total_minted: part.total_minted,
            owners: self.owners.remove_keys(tokens).union_prefer_right(part.owners),
            balances: self.balances.remove_keys(accounts).union_prefer_right(part.balances),
            approvals: self.approvals.remove_keys(tokens).union_prefer_right(part.approvals),
            events: self.events + part.events,
        }
    }
}

} // verus!
