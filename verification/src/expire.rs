use vstd::prelude::*;

use crate::commit::{commit_preimage, sha256_of, verify_commit};
use crate::errors::AlonsBoxError;
use crate::events::RoundExpired;
use crate::payout::{expiry_check, expiry_payout};
use crate::state::{bps_share, GameState, Round, RoundStatus, Vault, Wallet};

verus! {

/// Why an expire fails, or `None` when it succeeds.
///
/// The no-winner close: only the operator may call it, only on an `Active`
/// round, with the designated payout wallets, and only with a reveal no
/// longer than 64 bytes each that hashes to the stored commitment. The
/// split itself is the shared expiry split.
pub open spec fn expire_check(
    game_state: GameState,
    round: Round,
    vault: Vault,
    treasury: Wallet,
    buyback: Wallet,
    answer: Seq<u8>,
    salt: Seq<u8>,
    caller: u64,
) -> Option<AlonsBoxError> {
    if caller != game_state.authority {
        Some(AlonsBoxError::Unauthorized)
    } else if !(round.status is Active) {
        Some(AlonsBoxError::RoundNotActive)
    } else if treasury.address != game_state.treasury {
        Some(AlonsBoxError::Unauthorized)
    } else if buyback.address != game_state.buyback_wallet {
        Some(AlonsBoxError::Unauthorized)
    } else if answer.len() > 64 {
        Some(AlonsBoxError::AnswerTooLong)
    } else if salt.len() > 64 {
        Some(AlonsBoxError::SaltTooLong)
    } else if sha256_of(commit_preimage(answer, salt)) != round.commit_hash@ {
        Some(AlonsBoxError::InvalidCommitHash)
    } else {
        expiry_check(round.total_deposits, round.rollover_in, vault, treasury, buyback)
    }
}

/// Closes a round with no winner: verifies the reveal, pays the buyback and
/// treasury shares of the round's deposits, credits the residual (dust
/// included) to the game ledger's rollover, stores the reveal, and moves the
/// round to `Expired` — or fails with no effect at all.
pub fn expire(
    game_state: &mut GameState,
    round: &mut Round,
    vault: &mut Vault,
    treasury: &mut Wallet,
    buyback_wallet: &mut Wallet,
    caller: u64,
    answer: Vec<u8>,
    salt: Vec<u8>,
) -> (r: Result<RoundExpired, AlonsBoxError>)
    requires
        old(round).wf(),
    ensures
        final(round).wf(),
        final(treasury).address == old(treasury).address,
        final(buyback_wallet).address == old(buyback_wallet).address,
        match expire_check(
            *old(game_state),
            *old(round),
            *old(vault),
            *old(treasury),
            *old(buyback_wallet),
            answer@,
            salt@,
            caller,
        ) {
            Some(e) => {
                &&& r == Err::<RoundExpired, AlonsBoxError>(e)
                &&& *final(game_state) == *old(game_state)
                &&& final(round).same_as(*old(round))
                &&& *final(vault) == *old(vault)
                &&& *final(treasury) == *old(treasury)
                &&& *final(buyback_wallet) == *old(buyback_wallet)
            },
            None => {
                let deposits = old(round).total_deposits;
                let buyback_amount = bps_share(deposits as int, 4750);
                let treasury_amount = bps_share(deposits as int, 500);
                &&& r == Ok::<RoundExpired, AlonsBoxError>(RoundExpired {
                    round_id: old(round).round_id,
                    pool: (deposits + old(round).rollover_in) as u64,
                    buyback_amount: buyback_amount as u64,
                    treasury_amount: treasury_amount as u64,
                })
                &&& *final(game_state) == (GameState {
                    rollover_balance: (old(round).rollover_in + deposits - buyback_amount
                        - treasury_amount) as u64,
                    ..*old(game_state)
                })
                &&& final(vault).balance == old(vault).balance - buyback_amount - treasury_amount
                &&& final(buyback_wallet).balance == old(buyback_wallet).balance + buyback_amount
                &&& final(treasury).balance == old(treasury).balance + treasury_amount
                &&& final(round).same_creation_fields(*old(round))
                &&& final(round).status is Expired
                &&& final(round).total_deposits == old(round).total_deposits
                &&& final(round).revealed_answer@ == answer@
                &&& final(round).revealed_salt@ == salt@
            },
        },
{
    if caller != game_state.authority {
        return Err(AlonsBoxError::Unauthorized);
    }
    if round.status != RoundStatus::Active {
        return Err(AlonsBoxError::RoundNotActive);
    }
    if treasury.address != game_state.treasury {
        return Err(AlonsBoxError::Unauthorized);
    }
    if buyback_wallet.address != game_state.buyback_wallet {
        return Err(AlonsBoxError::Unauthorized);
    }
    if answer.len() > 64 {
        return Err(AlonsBoxError::AnswerTooLong);
    }
    if salt.len() > 64 {
        return Err(AlonsBoxError::SaltTooLong);
    }
    if !verify_commit(&answer, &salt, &round.commit_hash) {
        return Err(AlonsBoxError::InvalidCommitHash);
    }

    let split = expiry_payout(
        game_state,
        round.total_deposits,
        round.rollover_in,
        vault,
        treasury,
        buyback_wallet,
    );
    let (buyback_amount, treasury_amount, pool) = match split {
        Ok(amounts) => amounts,
        Err(e) => {
            return Err(e);
        },
    };

    round.status = RoundStatus::Expired;
    round.revealed_answer = answer;
    round.revealed_salt = salt;

    Ok(
        RoundExpired {
            round_id: round.round_id,
            pool,
            buyback_amount,
            treasury_amount,
        },
    )
}

} // verus!
