use vstd::prelude::*;

use crate::errors::AlonsBoxError;
use crate::events::EmergencyExpired;
use crate::payout::{expiry_check, expiry_payout};
use crate::state::{bps_share, GameState, Round, RoundStatus, Vault, Wallet};

verus! {

/// The fixed grace window, in seconds, between a round's nominal end time
/// and the moment anyone may force-expire it: 24 hours.
pub const GRACE_PERIOD_SECONDS: i64 = 86400;

/// Why an emergency expire fails, or `None` when it succeeds.
///
/// The permissionless escape valve: anyone may call it, but only on an
/// `Active` round and only strictly after the grace deadline
/// `ends_at + 86400` — at the deadline itself it still fails. No reveal is
/// required; the answer is forfeited. The split is the shared expiry split.
pub open spec fn emergency_expire_check(
    game_state: GameState,
    round: Round,
    vault: Vault,
    treasury: Wallet,
    buyback: Wallet,
    now: i64,
) -> Option<AlonsBoxError> {
    if !(round.status is Active) {
        Some(AlonsBoxError::RoundNotActive)
    } else if treasury.address != game_state.treasury {
        Some(AlonsBoxError::Unauthorized)
    } else if buyback.address != game_state.buyback_wallet {
        Some(AlonsBoxError::Unauthorized)
    } else if round.ends_at + GRACE_PERIOD_SECONDS > i64::MAX {
        Some(AlonsBoxError::MathOverflow)
    } else if now <= round.ends_at + GRACE_PERIOD_SECONDS {
        Some(AlonsBoxError::GracePeriodNotElapsed)
    } else {
        expiry_check(round.total_deposits, round.rollover_in, vault, treasury, buyback)
    }
}

/// Force-closes an abandoned round: callable by anyone once the grace
/// deadline has strictly passed. Pays the same split as `expire`, credits
/// the residual to the rollover, and moves the round to `Expired` without
/// storing any reveal — or fails with no effect at all.
pub fn emergency_expire(
    game_state: &mut GameState,
    round: &mut Round,
    vault: &mut Vault,
    treasury: &mut Wallet,
    buyback_wallet: &mut Wallet,
    caller: u64,
    now: i64,
) -> (r: Result<EmergencyExpired, AlonsBoxError>)
    requires
        old(round).wf(),
    ensures
        final(round).wf(),
        final(treasury).address == old(treasury).address,
        final(buyback_wallet).address == old(buyback_wallet).address,
        match emergency_expire_check(
            *old(game_state),
            *old(round),
            *old(vault),
            *old(treasury),
            *old(buyback_wallet),
            now,
        ) {
            Some(e) => {
                &&& r == Err::<EmergencyExpired, AlonsBoxError>(e)
                &&& *final(game_state) == *old(game_state)
                &&& final(round).same_as(*old(round))
                &&& *final(vault) == *old(vault)
                &&& *final(treasury) == *old(treasury)
                &&& *final(buyback_wallet) == *old(buyback_wallet)
            },
            None => {
                let deposits = old(round).total_deposits;
                let buyback_amount = bps_share(deposits as int, 4750);
                let treasury_amount = bps_share(deposits as int, 500);
                &&& r == Ok::<EmergencyExpired, AlonsBoxError>(EmergencyExpired {
                    round_id: old(round).round_id,
                    pool: (deposits + old(round).rollover_in) as u64,
                    buyback_amount: buyback_amount as u64,
                    treasury_amount: treasury_amount as u64,
                    caller,
                })
                &&& *final(game_state) == (GameState {
                    rollover_balance: (old(round).rollover_in + deposits - buyback_amount
                        - treasury_amount) as u64,
                    ..*old(game_state)
                })
                &&& final(vault).balance == old(vault).balance - buyback_amount - treasury_amount
                &&& final(buyback_wallet).balance == old(buyback_wallet).balance + buyback_amount
                &&& final(treasury).balance == old(treasury).balance + treasury_amount
                &&& final(round).same_creation_fields(*old(round))
                &&& final(round).status is Expired
                &&& final(round).total_deposits == old(round).total_deposits
                &&& final(round).revealed_answer@ == old(round).revealed_answer@
                &&& final(round).revealed_salt@ == old(round).revealed_salt@
            },
        },
{
    if round.status != RoundStatus::Active {
        return Err(AlonsBoxError::RoundNotActive);
    }
    if treasury.address != game_state.treasury {
        return Err(AlonsBoxError::Unauthorized);
    }
    if buyback_wallet.address != game_state.buyback_wallet {
        return Err(AlonsBoxError::Unauthorized);
    }
    let grace_deadline = match round.ends_at.checked_add(GRACE_PERIOD_SECONDS) {
        Some(d) => d,
        None => {
            return Err(AlonsBoxError::MathOverflow);
        },
    };
    if now <= grace_deadline {
        return Err(AlonsBoxError::GracePeriodNotElapsed);
    }

    let split = expiry_payout(
        game_state,
        round.total_deposits,
        round.rollover_in,
        vault,
        treasury,
        buyback_wallet,
    );
    let (buyback_amount, treasury_amount, pool) = match split {
        Ok(amounts) => amounts,
        Err(e) => {
            return Err(e);
        },
    };

    round.status = RoundStatus::Expired;

    Ok(
        EmergencyExpired {
            round_id: round.round_id,
            pool,
            buyback_amount,
            treasury_amount,
            caller,
        },
    )
}

} // verus!
