use alons_box::close::{close_deposit, close_round};
use alons_box::create_round::create_round;
use alons_box::deposit::deposit;
use alons_box::emergency_expire::emergency_expire;
use alons_box::errors::AlonsBoxError;
use alons_box::escrow::EscrowLedger;
use alons_box::expire::expire;
use alons_box::initialize::initialize;
use alons_box::state::{Deposit, GameState, Round, RoundStatus, Vault, Wallet};
use alons_box::utils::transfer_from_vault;

fn commit_of(answer: &str, salt: &str) -> Vec<u8> {
    anchor_lang::solana_program::hash::hash(format!("{}:{}", answer, salt).as_bytes())
        .to_bytes()
        .to_vec()
}

fn bytes(s: &str) -> Vec<u8> {
    s.as_bytes().to_vec()
}

fn funded_round(deposits: u64, answer: &str, salt: &str) -> (GameState, Vault, Round) {
    let (mut gs, mut vault, _) = initialize(1, 2, 3);
    let (mut round, _) =
        create_round(&mut gs, &vault, 1, 1, commit_of(answer, salt), 100, 50).unwrap();
    let mut ledger = EscrowLedger::new();
    let mut player = Wallet { address: 10, balance: deposits };
    deposit(&mut round, &mut ledger, &mut vault, &mut player, deposits).unwrap();
    (gs, vault, round)
}

#[test]
fn expire_pays_buyback_and_treasury_and_credits_rollover() {
    let (mut gs, mut vault, mut round) = funded_round(1_000_000, "none", "s");
    let mut treasury = Wallet { address: 2, balance: 0 };
    let mut buyback = Wallet { address: 3, balance: 0 };

    let event = expire(
        &mut gs,
        &mut round,
        &mut vault,
        &mut treasury,
        &mut buyback,
        1,
        bytes("none"),
        bytes("s"),
    )
    .unwrap();

    assert_eq!(event.round_id, 1);
    assert_eq!(event.pool, 1_000_000);
    assert_eq!(event.buyback_amount, 475_000);
    assert_eq!(event.treasury_amount, 50_000);
    assert_eq!(buyback.balance, 475_000);
    assert_eq!(treasury.balance, 50_000);
    assert_eq!(vault.balance, 475_000);
    assert_eq!(gs.rollover_balance, 475_000);
    assert_eq!(round.status, RoundStatus::Expired);
    assert_eq!(round.revealed_answer, bytes("none"));
    assert_eq!(round.revealed_salt, bytes("s"));
}

#[test]
fn expire_folds_division_dust_into_the_rollover() {
    // 101 deposits: buyback = 101 * 4750 / 10000 = 47 (floored),
    // treasury = 101 * 500 / 10000 = 5 (floored), residual 49 rolls over.
    let (mut gs, mut vault, mut round) = funded_round(101, "none", "s");
    let mut treasury = Wallet { address: 2, balance: 0 };
    let mut buyback = Wallet { address: 3, balance: 0 };

    let event = expire(
        &mut gs,
        &mut round,
        &mut vault,
        &mut treasury,
        &mut buyback,
        1,
        bytes("none"),
        bytes("s"),
    )
    .unwrap();

    assert_eq!(event.buyback_amount, 47);
    assert_eq!(event.treasury_amount, 5);
    assert_eq!(gs.rollover_balance, 49);
    assert_eq!(vault.balance, 49);
}

#[test]
fn expire_splits_deposits_only_and_carries_old_rollover_forward() {
    let (mut gs, mut vault, mut round) = funded_round(1_000_000, "none", "s");
    let mut treasury = Wallet { address: 2, balance: 0 };
    let mut buyback = Wallet { address: 3, balance: 0 };
    expire(
        &mut gs,
        &mut round,
        &mut vault,
        &mut treasury,
        &mut buyback,
        1,
        bytes("none"),
        bytes("s"),
    )
    .unwrap();

    // Second round: the 475,000 left in the vault is snapshotted as its
    // carried-in rollover.
    let (mut round2, event2) =
        create_round(&mut gs, &vault, 1, 2, commit_of("two", "s"), 200, 150).unwrap();
    assert_eq!(event2.rollover_in, 475_000);
    assert_eq!(round2.rollover_in, 475_000);

    let mut ledger = EscrowLedger::new();
    let mut player = Wallet { address: 10, balance: 10_000 };
    deposit(&mut round2, &mut ledger, &mut vault, &mut player, 10_000).unwrap();

    // The split takes the new deposits only; the carried-in rollover stays
    // untouched and is folded into the rollover carried forward.
    let event = expire(
        &mut gs,
        &mut round2,
        &mut vault,
        &mut treasury,
        &mut buyback,
        1,
        bytes("two"),
        bytes("s"),
    )
    .unwrap();
    assert_eq!(event.pool, 485_000);
    assert_eq!(event.buyback_amount, 4_750);
    assert_eq!(event.treasury_amount, 500);
    assert_eq!(gs.rollover_balance, 475_000 + 4_750);
    assert_eq!(vault.balance, 475_000 + 4_750);
}

#[test]
fn expire_requires_a_matching_reveal() {
    let (mut gs, mut vault, mut round) = funded_round(1_000_000, "none", "s");
    let mut treasury = Wallet { address: 2, balance: 0 };
    let mut buyback = Wallet { address: 3, balance: 0 };

    let r = expire(
        &mut gs,
        &mut round,
        &mut vault,
        &mut treasury,
        &mut buyback,
        1,
        bytes("wrong"),
        bytes("s"),
    );
    assert_eq!(r.err(), Some(AlonsBoxError::InvalidCommitHash));
    assert_eq!(round.status, RoundStatus::Active);
    assert_eq!(vault.balance, 1_000_000);
    assert_eq!(gs.rollover_balance, 0);
}

#[test]
fn expire_requires_the_operator_and_the_designated_wallets() {
    let (mut gs, mut vault, mut round) = funded_round(1_000_000, "none", "s");
    let mut treasury = Wallet { address: 2, balance: 0 };
    let mut buyback = Wallet { address: 3, balance: 0 };

    let r = expire(
        &mut gs,
        &mut round,
        &mut vault,
        &mut treasury,
        &mut buyback,
        9,
        bytes("none"),
        bytes("s"),
    );
    assert_eq!(r.err(), Some(AlonsBoxError::Unauthorized));

    let mut wrong_buyback = Wallet { address: 99, balance: 0 };
    let r = expire(
        &mut gs,
        &mut round,
        &mut vault,
        &mut treasury,
        &mut wrong_buyback,
        1,
        bytes("none"),
        bytes("s"),
    );
    assert_eq!(r.err(), Some(AlonsBoxError::Unauthorized));
    assert_eq!(round.status, RoundStatus::Active);
}

#[test]
fn emergency_expire_boundary_is_strictly_after_the_grace_deadline() {
    let (mut gs, mut vault, mut round) = funded_round(1_000_000, "none", "s");
    let mut treasury = Wallet { address: 2, balance: 0 };
    let mut buyback = Wallet { address: 3, balance: 0 };

    // ends_at is 100, so the grace deadline is 86500: at the deadline
    // exactly the call still fails; one second later it succeeds.
    let r = emergency_expire(
        &mut gs,
        &mut round,
        &mut vault,
        &mut treasury,
        &mut buyback,
        42,
        86_500,
    );
    assert_eq!(r.err(), Some(AlonsBoxError::GracePeriodNotElapsed));
    assert_eq!(vault.balance, 1_000_000);
    assert_eq!(round.status, RoundStatus::Active);

    let event = emergency_expire(
        &mut gs,
        &mut round,
        &mut vault,
        &mut treasury,
        &mut buyback,
        42,
        86_501,
    )
    .unwrap();
    assert_eq!(event.pool, 1_000_000);
    assert_eq!(event.buyback_amount, 475_000);
    assert_eq!(event.treasury_amount, 50_000);
    assert_eq!(event.caller, 42);
    assert_eq!(buyback.balance, 475_000);
    assert_eq!(treasury.balance, 50_000);
    assert_eq!(gs.rollover_balance, 475_000);
    assert_eq!(round.status, RoundStatus::Expired);
    // The forfeited answer is never stored.
    assert!(round.revealed_answer.is_empty());
    assert!(round.revealed_salt.is_empty());
}

#[test]
fn emergency_expire_twice_fails_and_moves_nothing() {
    let (mut gs, mut vault, mut round) = funded_round(1_000_000, "none", "s");
    let mut treasury = Wallet { address: 2, balance: 0 };
    let mut buyback = Wallet { address: 3, balance: 0 };

    emergency_expire(&mut gs, &mut round, &mut vault, &mut treasury, &mut buyback, 42, 90_000)
        .unwrap();
    let r = emergency_expire(
        &mut gs,
        &mut round,
        &mut vault,
        &mut treasury,
        &mut buyback,
        43,
        90_000,
    );
    assert_eq!(r.err(), Some(AlonsBoxError::RoundNotActive));
    assert_eq!(vault.balance, 475_000);
    assert_eq!(buyback.balance, 475_000);
    assert_eq!(treasury.balance, 50_000);
}

#[test]
fn close_operations_require_a_terminal_round() {
    let (mut gs, mut vault, mut round) = funded_round(1_000, "none", "s");
    let record = Deposit { round_id: 1, user: 10, amount: 1_000 };

    let r = close_round(&gs, &round, 1, 5);
    assert_eq!(r.err(), Some(AlonsBoxError::RoundStillActive));
    let r = close_deposit(&gs, &round, &record, 1, 5);
    assert_eq!(r.err(), Some(AlonsBoxError::RoundStillActive));

    let mut treasury = Wallet { address: 2, balance: 0 };
    let mut buyback = Wallet { address: 3, balance: 0 };
    emergency_expire(&mut gs, &mut round, &mut vault, &mut treasury, &mut buyback, 42, 90_000)
        .unwrap();

    let closed = close_deposit(&gs, &round, &record, 1, 5).unwrap();
    assert_eq!(closed.round_id, 1);
    assert_eq!(closed.player, 10);
    assert_eq!(closed.rent_recovered, 5);

    let stray = Deposit { round_id: 7, user: 10, amount: 3 };
    let r = close_deposit(&gs, &round, &stray, 1, 5);
    assert_eq!(r.err(), Some(AlonsBoxError::InvalidRoundId));

    let r = close_round(&gs, &round, 9, 5);
    assert_eq!(r.err(), Some(AlonsBoxError::Unauthorized));
    let closed = close_round(&gs, &round, 1, 8).unwrap();
    assert_eq!(closed.round_id, 1);
    assert_eq!(closed.rent_recovered, 8);
}

#[test]
fn vault_transfers_are_all_or_nothing() {
    let mut vault = Vault { balance: 100 };
    let mut to = Wallet { address: 5, balance: 10 };

    transfer_from_vault(&mut vault, &mut to, 0).unwrap();
    assert_eq!(vault.balance, 100);
    assert_eq!(to.balance, 10);

    transfer_from_vault(&mut vault, &mut to, 60).unwrap();
    assert_eq!(vault.balance, 40);
    assert_eq!(to.balance, 70);

    let r = transfer_from_vault(&mut vault, &mut to, 41);
    assert_eq!(r.err(), Some(AlonsBoxError::MathOverflow));
    assert_eq!(vault.balance, 40);
    assert_eq!(to.balance, 70);

    let mut rich = Wallet { address: 6, balance: u64::MAX };
    let r = transfer_from_vault(&mut vault, &mut rich, 1);
    assert_eq!(r.err(), Some(AlonsBoxError::MathOverflow));
    assert_eq!(vault.balance, 40);
    assert_eq!(rich.balance, u64::MAX);
}
