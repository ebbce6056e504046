use nftexpanded::{AccountId, Event, EventApproval, EventMint, EventTransfer, Nftexpanded, Table};

fn account(byte: u8) -> AccountId {
    AccountId::from([byte; 32])
}

fn new_registry() -> Nftexpanded {
    Nftexpanded::default(account(0x1))
}

#[test]
fn default_state() {
    //Given
    let nft = Nftexpanded::default(AccountId::from([0x1; 32]));

    //When
    let tokens = nft.get_token_count_for_account(AccountId::from([0x1; 32]));

    //Then
    assert_eq!(tokens, 0);
}

#[test]
fn mint() {
    //Given
    let mut nft = Nftexpanded::default(AccountId::from([0x1; 32]));
    let account_one = AccountId::from([0x1; 32]);
    let token_id: u64 = 95;

    //When
    nft.mint(account_one, token_id);

    //Then
    assert_eq!(nft.get_token_count_for_account(account_one), 1);
    assert_eq!(nft.total_minted(), 1);
}

#[test]
fn transfer() {
    //Given
    let mut nft = Nftexpanded::default(AccountId::from([0x1; 32]));
    let account_one = AccountId::from([0x1; 32]);
    let account_two = AccountId::from([0x2; 32]);
    let token_id: u64 = 95;

    //When
    nft.mint(account_one, token_id);
    nft.transfer(account_one, account_two, token_id);

    //Then
    assert_eq!(nft.get_token_count_for_account(account_one), 0);
    assert_eq!(nft.get_token_count_for_account(account_two), 1);
}

#[test]
fn new_registry_gives_its_creator_the_sentinel_token_and_no_balance() {
    let creator = account(0x7);
    let nft = Nftexpanded::default(creator);

    assert_eq!(nft.owner(), creator);
    assert_eq!(nft.owner_of(0), Some(creator));
    assert_eq!(nft.owner_of(1), None);
    assert_eq!(nft.get_token_count_for_account(creator), 0);
    assert_eq!(nft.total_minted(), 0);
}

#[test]
fn new_registry_has_recorded_no_event() {
    let mut nft = new_registry();

    assert_eq!(nft.take_events(), Vec::<Event>::new());
}

#[test]
fn accounts_never_credited_have_no_balance() {
    let mut nft = new_registry();
    nft.mint(account(0x2), 1);
    nft.mint(account(0x3), 2);
    nft.transfer(account(0x2), account(0x3), 1);

    assert_eq!(nft.get_token_count_for_account(account(0x4)), 0);
    assert_eq!(nft.get_token_count_for_account(account(0x0)), 0);
    assert_eq!(nft.get_token_count_for_account(account(0xff)), 0);
}

#[test]
fn mint_returns_true_and_hands_over_the_token() {
    let mut nft = new_registry();

    assert!(nft.mint(account(0x2), 95));

    assert_eq!(nft.owner_of(95), Some(account(0x2)));
}

#[test]
fn mint_counts_every_mint() {
    let mut nft = new_registry();
    nft.mint(account(0x2), 10);
    nft.mint(account(0x2), 11);
    nft.mint(account(0x3), 12);

    assert_eq!(nft.get_token_count_for_account(account(0x2)), 2);
    assert_eq!(nft.get_token_count_for_account(account(0x3)), 1);
    assert_eq!(nft.total_minted(), 3);
}

#[test]
fn mint_records_an_event_with_the_registry_owner() {
    let creator = account(0x1);
    let mut nft = Nftexpanded::default(creator);
    nft.mint(account(0x2), 95);

    assert_eq!(
        nft.take_events(),
        vec![Event::Mint(EventMint { owner: creator, value: 95 })]
    );
}

#[test]
fn mint_of_the_sentinel_token_takes_it_from_the_creator() {
    let creator = account(0x1);
    let mut nft = Nftexpanded::default(creator);
    nft.mint(account(0x2), 0);

    assert_eq!(nft.owner_of(0), Some(account(0x2)));
    assert_eq!(nft.get_token_count_for_account(account(0x2)), 1);
    assert_eq!(nft.get_token_count_for_account(creator), 0);
}

#[test]
fn transfer_by_the_owner_returns_true() {
    let mut nft = new_registry();
    nft.mint(account(0x1), 95);

    assert!(nft.transfer(account(0x1), account(0x2), 95));

    assert_eq!(nft.owner_of(95), Some(account(0x2)));
}

#[test]
fn transfer_records_an_event() {
    let mut nft = new_registry();
    nft.mint(account(0x2), 95);
    nft.take_events();
    nft.transfer(account(0x2), account(0x3), 95);

    assert_eq!(
        nft.take_events(),
        vec![Event::Transfer(EventTransfer { from: account(0x2), to: account(0x3), token_id: 95 })]
    );
}

#[test]
fn transfer_of_an_unminted_token_changes_nothing() {
    let mut nft = new_registry();

    assert!(!nft.transfer(account(0x2), account(0x3), 95));

    assert_eq!(nft.owner_of(95), None);
    assert_eq!(nft.get_token_count_for_account(account(0x2)), 0);
    assert_eq!(nft.get_token_count_for_account(account(0x3)), 0);
    assert_eq!(nft.total_minted(), 0);
    assert_eq!(nft.take_events(), Vec::<Event>::new());
}

#[test]
fn transfer_by_a_non_owner_changes_nothing() {
    let mut nft = new_registry();
    nft.mint(account(0x2), 95);
    nft.mint(account(0x3), 96);
    nft.take_events();

    assert!(!nft.transfer(account(0x3), account(0x4), 95));

    assert_eq!(nft.owner_of(95), Some(account(0x2)));
    assert_eq!(nft.get_token_count_for_account(account(0x2)), 1);
    assert_eq!(nft.get_token_count_for_account(account(0x3)), 1);
    assert_eq!(nft.get_token_count_for_account(account(0x4)), 0);
    assert_eq!(nft.take_events(), Vec::<Event>::new());
}

#[test]
fn transfer_moves_a_token_only_once() {
    let mut nft = new_registry();
    nft.mint(account(0x2), 95);

    assert!(nft.transfer(account(0x2), account(0x3), 95));
    assert!(!nft.transfer(account(0x2), account(0x3), 95));

    assert_eq!(nft.get_token_count_for_account(account(0x2)), 0);
    assert_eq!(nft.get_token_count_for_account(account(0x3)), 1);
}

#[test]
fn transfer_from_an_empty_balance_clamps_at_zero() {
    let creator = account(0x1);
    let mut nft = Nftexpanded::default(creator);

    assert!(nft.transfer(creator, account(0x2), 0));

    assert_eq!(nft.owner_of(0), Some(account(0x2)));
    assert_eq!(nft.get_token_count_for_account(creator), 0);
    assert_eq!(nft.get_token_count_for_account(account(0x2)), 1);
}

#[test]
fn transfer_to_oneself_keeps_the_balance() {
    let mut nft = new_registry();
    nft.mint(account(0x2), 95);
    nft.mint(account(0x2), 96);

    assert!(nft.transfer(account(0x2), account(0x2), 95));

    assert_eq!(nft.owner_of(95), Some(account(0x2)));
    assert_eq!(nft.get_token_count_for_account(account(0x2)), 2);
}

#[test]
fn remint_credits_the_receiver_and_keeps_the_previous_balance() {
    let mut nft = new_registry();
    let first = account(0x2);
    let second = account(0x3);
    nft.mint(first, 95);

    assert!(nft.mint(second, 95));

    assert_eq!(nft.owner_of(95), Some(second));
    assert_eq!(nft.get_token_count_for_account(second), 1);
    assert_eq!(nft.get_token_count_for_account(first), 1);
    assert_eq!(nft.total_minted(), 2);
    // One token is counted in two balances: the balances add up to more
    // than the number of tokens that were minted and have an owner.
    let counted = nft.get_token_count_for_account(first) + nft.get_token_count_for_account(second);
    let minted_tokens_with_an_owner: u64 = 1;
    assert!(counted > minted_tokens_with_an_owner);
    // The previous owner can no longer move the token.
    assert!(!nft.transfer(first, second, 95));
}

#[test]
fn is_approved_without_an_entry_is_false_for_every_candidate() {
    let mut nft = new_registry();
    nft.mint(account(0x2), 95);
    nft.take_events();

    assert!(!nft.is_approved(account(0x1), 95, account(0x1)));
    assert!(!nft.is_approved(account(0x1), 95, account(0x2)));
    assert!(!nft.is_approved(account(0x2), 95, account(0x3)));
    assert!(!nft.is_approved(account(0x2), 0, account(0x1)));
    assert!(!nft.is_approved(account(0x2), 7, account(0x0)));

    assert_eq!(nft.take_events(), Vec::<Event>::new());
}

/// The registry has no operation that creates an approval: whatever it
/// serves after its creation, every approval check fails.
#[test]
fn approvals_cannot_be_created_through_the_registry() {
    let mut nft = new_registry();
    nft.mint(account(0x2), 1);
    nft.transfer(account(0x2), account(0x3), 1);
    nft.mint(account(0x3), 2);

    assert!(!nft.is_approved(account(0x3), 1, account(0x2)));
    assert!(!nft.is_approved(account(0x3), 1, account(0x3)));
    assert!(!nft.is_approved(account(0x3), 2, account(0x3)));
}

fn registry_with_an_approval(creator: AccountId, token_id: u64, spender: AccountId) -> Nftexpanded {
    let mut owners: Table<u64, AccountId> = Table::new();
    owners.insert(token_id, creator);
    let mut counts: Table<AccountId, u64> = Table::new();
    counts.insert(creator, 1);
    let mut approvals: Table<u64, AccountId> = Table::new();
    approvals.insert(token_id, spender);
    Nftexpanded::restore(creator, 1, owners, counts, approvals)
}

#[test]
fn is_approved_with_a_matching_entry_is_true_and_records_an_event() {
    let creator = account(0x1);
    let mut nft = registry_with_an_approval(creator, 95, account(0x5));

    assert!(nft.is_approved(account(0x9), 95, account(0x5)));

    assert_eq!(
        nft.take_events(),
        vec![Event::Approval(EventApproval {
            owner: creator,
            spender: account(0x9),
            token_id: 95,
            approved: true,
        })]
    );
}

#[test]
fn is_approved_with_another_candidate_is_false_and_records_nothing() {
    let mut nft = registry_with_an_approval(account(0x1), 95, account(0x5));

    assert!(!nft.is_approved(account(0x9), 95, account(0x6)));
    assert!(!nft.is_approved(account(0x9), 96, account(0x5)));

    assert_eq!(nft.take_events(), Vec::<Event>::new());
}

#[test]
fn transfer_keeps_the_approval_of_the_token() {
    let creator = account(0x1);
    let mut nft = registry_with_an_approval(creator, 95, account(0x5));

    assert!(nft.transfer(creator, account(0x2), 95));

    assert!(nft.is_approved(account(0x2), 95, account(0x5)));
}

#[test]
fn restore_keeps_what_it_is_given() {
    let mut owners: Table<u64, AccountId> = Table::new();
    owners.insert(3, account(0x2));
    owners.insert(4, account(0x3));
    let mut counts: Table<AccountId, u64> = Table::new();
    counts.insert(account(0x2), 5);
    let nft = Nftexpanded::restore(account(0x1), 9, owners, counts, Table::new());

    assert_eq!(nft.owner(), account(0x1));
    assert_eq!(nft.total_minted(), 9);
    assert_eq!(nft.owner_of(3), Some(account(0x2)));
    assert_eq!(nft.owner_of(4), Some(account(0x3)));
    assert_eq!(nft.owner_of(5), None);
    assert_eq!(nft.get_token_count_for_account(account(0x2)), 5);
    assert_eq!(nft.get_token_count_for_account(account(0x3)), 0);
}

#[test]
fn restored_balance_grows_by_one_on_mint() {
    let mut counts: Table<AccountId, u64> = Table::new();
    counts.insert(account(0x2), 41);
    let mut nft = Nftexpanded::restore(account(0x1), 100, Table::new(), counts, Table::new());

    nft.mint(account(0x2), 7);

    assert_eq!(nft.get_token_count_for_account(account(0x2)), 42);
    assert_eq!(nft.total_minted(), 101);
}

#[test]
fn sequential_scenario() {
    let a = account(0xa);
    let b = account(0xb);
    let mut nft = new_registry();

    assert!(nft.mint(a, 1));
    assert!(nft.mint(a, 2));
    assert!(nft.transfer(a, b, 1));

    assert_eq!(nft.get_token_count_for_account(a), 1);
    assert_eq!(nft.get_token_count_for_account(b), 1);
    assert_eq!(nft.owner_of(1), Some(b));
    assert_eq!(nft.owner_of(2), Some(a));
    assert_eq!(nft.total_minted(), 2);
}

#[test]
fn events_come_out_oldest_first_and_only_once() {
    let creator = account(0x1);
    let mut nft = Nftexpanded::default(creator);
    nft.mint(account(0x2), 1);
    nft.transfer(account(0x2), account(0x3), 1);
    nft.transfer(account(0x2), account(0x3), 1);

    assert_eq!(
        nft.take_events(),
        vec![
            Event::Mint(EventMint { owner: creator, value: 1 }),
            Event::Transfer(EventTransfer { from: account(0x2), to: account(0x3), token_id: 1 }),
        ]
    );
    assert_eq!(nft.take_events(), Vec::<Event>::new());
    assert_eq!(nft.get_token_count_for_account(account(0x3)), 1);
}
