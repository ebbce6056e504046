//! The executable registry.

use vstd::prelude::*;
use crate::account::AccountId;
use crate::events::{Event, EventApproval, EventMint, EventTransfer};
use crate::model::{balance_in, debited, LedgerState, SENTINEL_TOKEN};
use crate::table::Table;

verus! {

/// The balances of a table, as mathematical numbers.
spec fn as_counts(recorded: Map<AccountId, u64>) -> Map<AccountId, nat> {
    recorded.map_values(|c: u64| c as nat)
}

proof fn lemma_as_counts_empty()
    ensures
        as_counts(Map::empty()) == Map::<AccountId, nat>::empty(),
{
    assert(as_counts(Map::empty()) =~= Map::<AccountId, nat>::empty());
}

proof fn lemma_as_counts_insert(recorded: Map<AccountId, u64>, account: AccountId, count: u64)
    ensures
        as_counts(recorded.insert(account, count)) == as_counts(recorded).insert(
            account,
            count as nat,
        ),
{
    assert(as_counts(recorded.insert(account, count)) =~= as_counts(recorded).insert(
        account,
        count as nat,
    ));
}

/// The ownership registry: who owns which token, how many tokens each
/// account is credited with, and who is approved to spend which token.
///
/// The registry publishes nothing itself. It records an [`Event`] for each
/// notable change, and its host takes the log with
/// [`take_events`](Nftexpanded::take_events) and publishes it.
pub struct Nftexpanded {
    owner: AccountId,
    total_minted: u64,
    id_to_owner: Table<u64, AccountId>,
    owner_to_token_count: Table<AccountId, u64>,
    approvals: Table<u64, AccountId>,
    events: Vec<Event>,
}

impl View for Nftexpanded {
    type V = LedgerState;

    closed spec fn view(&self) -> LedgerState {
        LedgerState {
            owner: self.owner,
            total_minted: self.total_minted as nat,
            owners: self.id_to_owner@,
            balances: as_counts(self.owner_to_token_count@),
            approvals: self.approvals@,
            events: self.events@,
        }
    }
}

impl Nftexpanded {
    /// Creates the registry for `caller`, who becomes its owner, owns the
    /// sentinel token and starts with a balance entry of zero.
    pub fn default(caller: AccountId) -> (ledger: Self)
        ensures
            ledger@ == LedgerState::initial(caller),
    {
        let mut id_to_owner = Table::new();
        id_to_owner.insert(SENTINEL_TOKEN, caller);
        let mut owner_to_token_count = Table::new();
        owner_to_token_count.insert(caller, 0);
        proof {
            lemma_as_counts_empty();
            lemma_as_counts_insert(Map::empty(), caller, 0);
        }
        Nftexpanded {
            owner: caller,
            total_minted: 0,
            id_to_owner,
            owner_to_token_count,
            approvals: Table::new(),
            events: Vec::new(),
        }
    }

    /// Rebuilds a registry from the tables and the counter that its host
    /// has kept. The event log starts empty.
    pub fn restore(
        owner: AccountId,
        total_minted: u64,
        id_to_owner: Table<u64, AccountId>,
        owner_to_token_count: Table<AccountId, u64>,
        approvals: Table<u64, AccountId>,
    ) -> (ledger: Self)
        ensures
            ledger@.owner == owner,
            ledger@.total_minted == total_minted,
            ledger@.owners == id_to_owner@,
            ledger@.balances == owner_to_token_count@.map_values(|c: u64| c as nat),
            ledger@.approvals == approvals@,
            ledger@.events == Seq::<Event>::empty(),
    {
        Nftexpanded {
            owner,
            total_minted,
            id_to_owner,
            owner_to_token_count,
            approvals,
            events: Vec::new(),
        }
    }

    /// The account that created the registry.
    pub fn owner(&self) -> (owner: AccountId)
        ensures
            owner == self@.owner,
    {
        self.owner
    }

    /// How many times a token has been minted.
    pub fn total_minted(&self) -> (total: u64)
        ensures
            total == self@.total_minted,
    {
        let total_minted = self.total_minted;
        total_minted
    }

    /// The balance of `account`: zero where it has no entry.
    pub fn get_token_count_for_account(&self, account: AccountId) -> (count: u64)
        ensures
            count == self@.count(account),
    {
        let number = self.owner_to_token_count.get(account);
        match number {
            None => 0,
            Some(n) => n,
        }
    }

    /// The owner of `token_id`, or `None` where the token has no owner.
    pub fn owner_of(&self, token_id: u64) -> (owner: Option<AccountId>)
        ensures
            owner == (if self@.owners.contains_key(token_id) {
                Some(self@.owners[token_id])
            } else {
                None::<AccountId>
            }),
    {
        self.id_to_owner.get(token_id)
    }

    /// Whether `account` owns `token_id`. A token without an owner is owned
    /// by nobody.
    fn is_token_owner(&self, account: &AccountId, token_id: u64) -> (owned: bool)
        ensures
            owned == self@.owns(*account, token_id),
    {
        let owner = self.id_to_owner.get(token_id);
        match owner {
            Some(acc) => acc == *account,
            None => false,
        }
    }

    /// Points `token_id` at `receiver`, whoever owned it before. The balance
    /// of a previous owner is not touched: a token that is minted twice
    /// stays counted in both balances.
    fn overwrite_owner(&mut self, token_id: u64, receiver: AccountId)
        ensures
            final(self)@ == (LedgerState {
                owners: old(self)@.owners.insert(token_id, receiver),
                ..old(self)@
            }),
    {
        self.id_to_owner.insert(token_id, receiver);
    }

    /// Sets the balance entry of `account` to `count`.
    fn set_count(&mut self, account: AccountId, count: u64)
        ensures
            final(self)@ == (LedgerState {
                balances: old(self)@.balances.insert(account, count as nat),
                ..old(self)@
            }),
    {
        proof {
            lemma_as_counts_insert(self.owner_to_token_count@, account, count);
        }
        self.owner_to_token_count.insert(account, count);
    }

    /// Appends `event` to the log.
    fn record(&mut self, event: Event)
        ensures
            final(self)@ == (LedgerState {
                events: old(self)@.events.push(event),
                ..old(self)@
            }),
    {
        self.events.push(event);
    }

    /// Mints `token_id` to `receiver` and returns `true`.
    ///
    /// The token goes to `receiver` whether or not it had an owner, the
    /// balance of `receiver` and the mint counter each grow by one, and a
    /// mint event is recorded. The two counters must have room to grow.
    pub fn mint(&mut self, receiver: AccountId, token_id: u64) -> (minted: bool)
        requires
            old(self)@.count(receiver) < u64::MAX,
            old(self)@.total_minted < u64::MAX,
        ensures
            minted,
            final(self)@ == old(self)@.minted(receiver, token_id),
    {
        self.overwrite_owner(token_id, receiver);
        let owner = self.owner;
        let existing_number = self.get_token_count_for_account(receiver);
        self.set_count(receiver, existing_number + 1);
        self.total_minted += 1;
        self.record(Event::Mint(EventMint { owner, value: token_id }));
        true
    }

    /// Moves `token_id` from `from` to `to`, and says whether it did.
    ///
    /// Where `from` does not own the token, nothing changes and the result
    /// is `false`. Otherwise the token goes to `to`, the balance of `from`
    /// is debited, clamped at zero, then the balance of `to` is credited,
    /// and a transfer event is recorded. The balance of `to` must have room
    /// to grow.
    pub fn transfer(&mut self, from: AccountId, to: AccountId, token_id: u64) -> (moved: bool)
        requires
            old(self)@.owns(from, token_id) && from != to ==> old(self)@.count(to) < u64::MAX,
        ensures
            moved == old(self)@.owns(from, token_id),
            !moved ==> final(self)@ == old(self)@,
            final(self)@ == old(self)@.transferred(from, to, token_id),
    {
        if !self.is_token_owner(&from, token_id) {
            return false;
        }
        self.overwrite_owner(token_id, to);
        let from_owner_count = self.get_token_count_for_account(from);
        self.set_count(from, from_owner_count.saturating_sub(1));
        let to_owner_count = self.get_token_count_for_account(to);
        self.set_count(to, to_owner_count + 1);
        self.record(Event::Transfer(EventTransfer { from, to, token_id }));
        true
    }

    /// Whether `approved` is the approved spender of `token_id`, asked by
    /// `spender`.
    ///
    /// A token without an approval entry has no approved spender. An
    /// approval that stands is recorded as an event; otherwise nothing
    /// changes.
    pub fn is_approved(&mut self, spender: AccountId, token_id: u64, approved: AccountId) -> (ok:
        bool)
        ensures
            ok == old(self)@.approves(token_id, approved),
            !ok ==> final(self)@ == old(self)@,
            final(self)@ == old(self)@.approval_checked(spender, token_id, approved),
    {
        let approval = self.approvals.get(token_id);
        let owner = self.owner;
        match approval {
            None => false,
            Some(account) => {
                if account == approved {
                    self.record(
                        Event::Approval(EventApproval { owner, spender, token_id, approved: true }),
                    );
                    true
                } else {
                    false
                }
            },
        }
    }

    /// Hands out the recorded events, oldest first, and empties the log.
    pub fn take_events(&mut self) -> (events: Vec<Event>)
        ensures
            events@ == old(self)@.events,
            final(self)@ == old(self)@.events_taken(),
    {
        let mut events = Vec::new();
        std::mem::swap(&mut self.events, &mut events);
        events
    }
}

} // verus!
