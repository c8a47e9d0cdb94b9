use alons_box::create_round::create_round;
use alons_box::deposit::deposit;
use alons_box::errors::AlonsBoxError;
use alons_box::escrow::EscrowLedger;
use alons_box::initialize::initialize;
use alons_box::state::{RoundStatus, Wallet};

fn commit_of(answer: &str, salt: &str) -> Vec<u8> {
    anchor_lang::solana_program::hash::hash(format!("{}:{}", answer, salt).as_bytes())
        .to_bytes()
        .to_vec()
}

#[test]
fn initialize_sets_up_ledger_and_vault() {
    let (gs, vault, event) = initialize(1, 2, 3);
    assert_eq!(gs.authority, 1);
    assert_eq!(gs.treasury, 2);
    assert_eq!(gs.buyback_wallet, 3);
    assert_eq!(gs.current_round_id, 0);
    assert_eq!(gs.rollover_balance, 0);
    assert_eq!(vault.balance, 0);
    assert_eq!(event.authority, 1);
    assert_eq!(event.treasury, 2);
    assert_eq!(event.buyback_wallet, 3);
}

#[test]
fn create_round_accepts_only_the_next_sequential_id() {
    let (mut gs, vault, _) = initialize(1, 2, 3);
    let commit = commit_of("a", "b");

    let r = create_round(&mut gs, &vault, 1, 2, commit.clone(), 100, 50);
    assert_eq!(r.err(), Some(AlonsBoxError::InvalidRoundId));
    assert_eq!(gs.current_round_id, 0);

    let r = create_round(&mut gs, &vault, 1, 0, commit.clone(), 100, 50);
    assert_eq!(r.err(), Some(AlonsBoxError::InvalidRoundId));

    let r = create_round(&mut gs, &vault, 1, 1, commit.clone(), 100, 50);
    let (round, event) = r.expect("sequential id with future end time must succeed");
    assert_eq!(gs.current_round_id, 1);
    assert_eq!(round.round_id, 1);
    assert_eq!(round.commit_hash, commit);
    assert_eq!(round.authority, 1);
    assert_eq!(round.ends_at, 100);
    assert_eq!(round.status, RoundStatus::Active);
    assert_eq!(round.total_deposits, 0);
    assert_eq!(round.rollover_in, 0);
    assert!(round.revealed_answer.is_empty());
    assert!(round.revealed_salt.is_empty());
    assert_eq!(event.round_id, 1);
    assert_eq!(event.ends_at, 100);
    assert_eq!(event.rollover_in, 0);

    // The same id can never be created a second time.
    let r = create_round(&mut gs, &vault, 1, 1, commit, 200, 50);
    assert_eq!(r.err(), Some(AlonsBoxError::InvalidRoundId));
    assert_eq!(gs.current_round_id, 1);
}

#[test]
fn create_round_requires_future_end_time() {
    let (mut gs, vault, _) = initialize(1, 2, 3);
    let commit = commit_of("a", "b");

    let r = create_round(&mut gs, &vault, 1, 1, commit.clone(), 50, 50);
    assert_eq!(r.err(), Some(AlonsBoxError::InvalidEndTime));
    assert_eq!(gs.current_round_id, 0);

    let r = create_round(&mut gs, &vault, 1, 1, commit, 51, 50);
    assert!(r.is_ok());
}

#[test]
fn create_round_requires_the_operator() {
    let (mut gs, vault, _) = initialize(1, 2, 3);
    let r = create_round(&mut gs, &vault, 9, 1, commit_of("a", "b"), 100, 50);
    assert_eq!(r.err(), Some(AlonsBoxError::Unauthorized));
    assert_eq!(gs.current_round_id, 0);
}

#[test]
fn deposits_accumulate_and_escrow_sum_matches_round_total() {
    let (mut gs, mut vault, _) = initialize(1, 2, 3);
    let (mut round, _) =
        create_round(&mut gs, &vault, 1, 1, commit_of("a", "b"), 100, 50).unwrap();
    let mut ledger = EscrowLedger::new();
    let mut alice = Wallet { address: 10, balance: 500 };
    let mut bob = Wallet { address: 11, balance: 500 };

    let e = deposit(&mut round, &mut ledger, &mut vault, &mut alice, 100).unwrap();
    assert_eq!(e.round_id, 1);
    assert_eq!(e.player, 10);
    assert_eq!(e.amount, 100);
    assert_eq!(e.total_deposits, 100);

    deposit(&mut round, &mut ledger, &mut vault, &mut bob, 250).unwrap();
    deposit(&mut round, &mut ledger, &mut vault, &mut alice, 50).unwrap();

    assert_eq!(round.total_deposits, 400);
    assert_eq!(vault.balance, 400);
    assert_eq!(alice.balance, 350);
    assert_eq!(bob.balance, 250);

    // One cumulative record per participant; their sum is the round total.
    assert_eq!(ledger.holding_of(1, 10), 150);
    assert_eq!(ledger.holding_of(1, 11), 250);
    assert_eq!(ledger.holding_of(1, 10) + ledger.holding_of(1, 11), round.total_deposits);
    assert_eq!(ledger.records.len(), 2);
}

#[test]
fn deposit_of_zero_is_tolerated() {
    let (mut gs, mut vault, _) = initialize(1, 2, 3);
    let (mut round, _) =
        create_round(&mut gs, &vault, 1, 1, commit_of("a", "b"), 100, 50).unwrap();
    let mut ledger = EscrowLedger::new();
    let mut alice = Wallet { address: 10, balance: 500 };

    let r = deposit(&mut round, &mut ledger, &mut vault, &mut alice, 0);
    assert!(r.is_ok());
    assert_eq!(round.total_deposits, 0);
    assert_eq!(alice.balance, 500);
}

#[test]
fn deposit_requires_active_round_but_not_open_time() {
    let (mut gs, mut vault, _) = initialize(1, 2, 3);
    let (mut round, _) =
        create_round(&mut gs, &vault, 1, 1, commit_of("a", "b"), 100, 50).unwrap();
    let mut ledger = EscrowLedger::new();
    let mut alice = Wallet { address: 10, balance: 500 };

    // A deposit long after ends_at is still taken while the round is Active:
    // time expiry alone never closes a round.
    deposit(&mut round, &mut ledger, &mut vault, &mut alice, 100).unwrap();
    assert_eq!(round.total_deposits, 100);

    round.status = RoundStatus::Expired;
    let r = deposit(&mut round, &mut ledger, &mut vault, &mut alice, 100);
    assert_eq!(r.err(), Some(AlonsBoxError::RoundNotActive));
    assert_eq!(round.total_deposits, 100);
    assert_eq!(alice.balance, 400);
    assert_eq!(vault.balance, 100);
}

#[test]
fn deposit_without_the_stake_fails_cleanly() {
    let (mut gs, mut vault, _) = initialize(1, 2, 3);
    let (mut round, _) =
        create_round(&mut gs, &vault, 1, 1, commit_of("a", "b"), 100, 50).unwrap();
    let mut ledger = EscrowLedger::new();
    let mut alice = Wallet { address: 10, balance: 99 };

    let r = deposit(&mut round, &mut ledger, &mut vault, &mut alice, 100);
    assert_eq!(r.err(), Some(AlonsBoxError::MathOverflow));
    assert_eq!(round.total_deposits, 0);
    assert_eq!(alice.balance, 99);
    assert_eq!(vault.balance, 0);
    assert_eq!(ledger.records.len(), 0);
}

#[test]
fn deposit_overflowing_the_total_fails_with_no_state_mutation() {
    let (mut gs, mut vault, _) = initialize(1, 2, 3);
    let (mut round, _) =
        create_round(&mut gs, &vault, 1, 1, commit_of("a", "b"), 100, 50).unwrap();
    let mut ledger = EscrowLedger::new();
    let mut whale = Wallet { address: 10, balance: u64::MAX };

    deposit(&mut round, &mut ledger, &mut vault, &mut whale, u64::MAX - 5).unwrap();
    assert_eq!(round.total_deposits, u64::MAX - 5);

    let mut late = Wallet { address: 11, balance: 100 };
    let r = deposit(&mut round, &mut ledger, &mut vault, &mut late, 6);
    assert_eq!(r.err(), Some(AlonsBoxError::MathOverflow));
    assert_eq!(round.total_deposits, u64::MAX - 5);
    assert_eq!(vault.balance, u64::MAX - 5);
    assert_eq!(late.balance, 100);
    assert_eq!(ledger.records.len(), 1);
    assert_eq!(ledger.holding_of(1, 11), 0);
}
