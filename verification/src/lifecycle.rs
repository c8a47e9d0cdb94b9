use vstd::prelude::*;

use crate::emergency_expire::emergency_expire_check;
use crate::errors::AlonsBoxError;
use crate::expire::expire_check;
use crate::settle::settle_check;
use crate::state::{GameState, Round, Vault, Wallet};

verus! {

/// Closing a round is one-shot. Every closing path moves the round to a
/// terminal status, and every closing path demands `Active`, so a repeated
/// settle, expire or emergency expire on the same round — by the operator
/// or anyone else — always hits the state guard and fails; the handlers'
/// contracts then promise that the failed call moves no value at all.
pub proof fn lemma_closing_is_one_shot(
    game_state: GameState,
    round: Round,
    vault: Vault,
    winner: Wallet,
    treasury: Wallet,
    buyback: Wallet,
    evidence_wallets: Seq<Wallet>,
    evidence_amounts: Seq<u64>,
    answer: Seq<u8>,
    salt: Seq<u8>,
    now: i64,
)
    requires
        !(round.status is Active),
    ensures
        settle_check(
            game_state,
            round,
            vault,
            winner,
            treasury,
            evidence_wallets,
            evidence_amounts,
            answer,
            salt,
            game_state.authority,
        ) == Some(AlonsBoxError::RoundNotActive),
        expire_check(
            game_state,
            round,
            vault,
            treasury,
            buyback,
            answer,
            salt,
            game_state.authority,
        ) == Some(AlonsBoxError::RoundNotActive),
        emergency_expire_check(game_state, round, vault, treasury, buyback, now) == Some(
            AlonsBoxError::RoundNotActive,
        ),
{
}

} // verus!
