use vstd::prelude::*;

use crate::errors::AlonsBoxError;
use crate::state::{bps_share, GameState, Vault, Wallet};
use crate::utils::transfer_from_vault;

verus! {

/// Why the shared expiry split fails, or `None` when it goes through.
///
/// Both expiry paths split the round's own deposits only — the carried-in
/// rollover is left untouched — paying 47.5% (4750 BPS) to the buyback
/// wallet and 5% (500 BPS) to the treasury, and folding the residual,
/// integer-division dust included, into the rollover carried forward. Every
/// step is overflow-checked, and a failed custodial move aborts the split
/// with nothing paid.
pub open spec fn expiry_check(
    total_deposits: u64,
    rollover_in: u64,
    vault: Vault,
    treasury: Wallet,
    buyback: Wallet,
) -> Option<AlonsBoxError> {
    let buyback_amount = bps_share(total_deposits as int, 4750);
    let treasury_amount = bps_share(total_deposits as int, 500);
    if total_deposits * 4750 > u64::MAX {
        Some(AlonsBoxError::MathOverflow)
    } else if total_deposits * 500 > u64::MAX {
        Some(AlonsBoxError::MathOverflow)
    } else if buyback_amount > total_deposits {
        Some(AlonsBoxError::MathOverflow)
    } else if treasury_amount > total_deposits - buyback_amount {
        Some(AlonsBoxError::MathOverflow)
    } else if rollover_in + (total_deposits - buyback_amount - treasury_amount) > u64::MAX {
        Some(AlonsBoxError::MathOverflow)
    } else if vault.balance < buyback_amount + treasury_amount {
        Some(AlonsBoxError::MathOverflow)
    } else if buyback.balance + buyback_amount > u64::MAX {
        Some(AlonsBoxError::MathOverflow)
    } else if treasury.balance + treasury_amount > u64::MAX {
        Some(AlonsBoxError::MathOverflow)
    } else if total_deposits + rollover_in > u64::MAX {
        Some(AlonsBoxError::MathOverflow)
    } else {
        None
    }
}

/// Pays the shared expiry split and credits the rollover.
///
/// On success the vault pays the buyback and treasury shares of the round's
/// deposits, and the game ledger's rollover balance becomes the carried-in
/// rollover plus the residual of the deposits — so rounding dust lands in
/// the rollover, never with a payout recipient. Returns the buyback amount,
/// the treasury amount, and the round's full pool (deposits plus carried-in
/// rollover). On any failure nothing changes at all.
pub fn expiry_payout(
    game_state: &mut GameState,
    total_deposits: u64,
    rollover_in: u64,
    vault: &mut Vault,
    treasury: &mut Wallet,
    buyback: &mut Wallet,
) -> (r: Result<(u64, u64, u64), AlonsBoxError>)
    ensures
        final(treasury).address == old(treasury).address,
        final(buyback).address == old(buyback).address,
        match expiry_check(total_deposits, rollover_in, *old(vault), *old(treasury), *old(buyback)) {
            Some(e) => {
                &&& r == Err::<(u64, u64, u64), AlonsBoxError>(e)
                &&& *final(game_state) == *old(game_state)
                &&& *final(vault) == *old(vault)
                &&& *final(treasury) == *old(treasury)
                &&& *final(buyback) == *old(buyback)
            },
            None => {
                let buyback_amount = bps_share(total_deposits as int, 4750);
                let treasury_amount = bps_share(total_deposits as int, 500);
                &&& r == Ok::<(u64, u64, u64), AlonsBoxError>(
                    (
                        buyback_amount as u64,
                        treasury_amount as u64,
                        (total_deposits + rollover_in) as u64,
                    ),
                )
                &&& *final(game_state) == (GameState {
                    rollover_balance: (rollover_in + total_deposits - buyback_amount
                        - treasury_amount) as u64,
                    ..*old(game_state)
                })
                &&& final(vault).balance == old(vault).balance - buyback_amount - treasury_amount
                &&& final(buyback).balance == old(buyback).balance + buyback_amount
                &&& final(treasury).balance == old(treasury).balance + treasury_amount
            },
        },
{
    let buyback_amount = match total_deposits.checked_mul(4750) {
        Some(x) => x / 10000,
        None => {
            return Err(AlonsBoxError::MathOverflow);
        },
    };
    let treasury_amount = match total_deposits.checked_mul(500) {
        Some(x) => x / 10000,
        None => {
            return Err(AlonsBoxError::MathOverflow);
        },
    };
    let after_buyback = match total_deposits.checked_sub(buyback_amount) {
        Some(x) => x,
        None => {
            return Err(AlonsBoxError::MathOverflow);
        },
    };
    let rollover_added = match after_buyback.checked_sub(treasury_amount) {
        Some(x) => x,
        None => {
            return Err(AlonsBoxError::MathOverflow);
        },
    };
    let rollover_out = match rollover_in.checked_add(rollover_added) {
        Some(x) => x,
        None => {
            return Err(AlonsBoxError::MathOverflow);
        },
    };
    if vault.balance < buyback_amount || vault.balance - buyback_amount < treasury_amount {
        return Err(AlonsBoxError::MathOverflow);
    }
    if buyback.balance > u64::MAX - buyback_amount {
        return Err(AlonsBoxError::MathOverflow);
    }
    if treasury.balance > u64::MAX - treasury_amount {
        return Err(AlonsBoxError::MathOverflow);
    }
    let pool = match total_deposits.checked_add(rollover_in) {
        Some(p) => p,
        None => {
            return Err(AlonsBoxError::MathOverflow);
        },
    };

    // The checks above prove both transfers return Ok, so the discarded
    // results carry no information.
    let _ = transfer_from_vault(vault, buyback, buyback_amount);
    let _ = transfer_from_vault(vault, treasury, treasury_amount);
    game_state.rollover_balance = rollover_out;

    Ok((buyback_amount, treasury_amount, pool))
}

} // verus!
