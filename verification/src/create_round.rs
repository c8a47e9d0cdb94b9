use vstd::prelude::*;

use crate::errors::AlonsBoxError;
use crate::events::RoundCreated;
use crate::state::{GameState, Round, RoundStatus, Vault};

verus! {

/// Why round creation fails, or `None` when it succeeds.
///
/// Round ids are strictly sequential: the only id ever accepted is the
/// successor of the current counter, with no gaps and no reuse (when the
/// counter has exhausted the 64-bit range, no id is accepted at all). The
/// end time must lie strictly in the future.
pub open spec fn create_round_check(
    game_state: GameState,
    caller: u64,
    round_id: u64,
    ends_at: i64,
    now: i64,
) -> Option<AlonsBoxError> {
    if caller != game_state.authority {
        Some(AlonsBoxError::Unauthorized)
    } else if !(game_state.current_round_id < u64::MAX && round_id == game_state.current_round_id
        + 1) {
        Some(AlonsBoxError::InvalidRoundId)
    } else if ends_at <= now {
        Some(AlonsBoxError::InvalidEndTime)
    } else {
        None
    }
}

/// Opens the next round under the given 32-byte commitment.
///
/// On success the counter advances to `round_id`, and the new round starts
/// `Active` with no deposits, an empty reveal, and the current vault balance
/// snapshotted as its carried-in rollover.
pub fn create_round(
    game_state: &mut GameState,
    vault: &Vault,
    caller: u64,
    round_id: u64,
    commit_hash: Vec<u8>,
    ends_at: i64,
    now: i64,
) -> (r: Result<(Round, RoundCreated), AlonsBoxError>)
    requires
        commit_hash@.len() == 32,
    ensures
        match create_round_check(*old(game_state), caller, round_id, ends_at, now) {
            Some(e) => r == Err::<(Round, RoundCreated), AlonsBoxError>(e) && *final(game_state)
                == *old(game_state),
            None => {
                &&& *final(game_state) == (GameState {
                    current_round_id: round_id,
                    ..*old(game_state)
                })
                &&& r matches Ok((round, event)) && ({
                    &&& round.round_id == round_id
                    &&& round.commit_hash@ == commit_hash@
                    &&& round.authority == caller
                    &&& round.ends_at == ends_at
                    &&& round.status is Active
                    &&& round.total_deposits == 0
                    &&& round.rollover_in == vault.balance
                    &&& round.revealed_answer@.len() == 0
                    &&& round.revealed_salt@.len() == 0
                    &&& round.wf()
                    &&& event == (RoundCreated { round_id, ends_at, rollover_in: vault.balance })
                })
            },
        },
{
    if caller != game_state.authority {
        return Err(AlonsBoxError::Unauthorized);
    }
    if !(game_state.current_round_id < u64::MAX && round_id == game_state.current_round_id + 1) {
        return Err(AlonsBoxError::InvalidRoundId);
    }
    if ends_at <= now {
        return Err(AlonsBoxError::InvalidEndTime);
    }

    game_state.current_round_id = round_id;

    let rollover_in = vault.balance;
    let round = Round {
        round_id,
        commit_hash,
        authority: caller,
        ends_at,
        status: RoundStatus::Active,
        total_deposits: 0,
        rollover_in,
        revealed_answer: Vec::new(),
        revealed_salt: Vec::new(),
    };
    let event = RoundCreated { round_id, ends_at, rollover_in };
    Ok((round, event))
}

/// An id at or below the current counter can never be created: successful
/// creations only move the counter up, so each round id is accepted exactly
/// once over the life of the game.
pub proof fn lemma_round_id_never_reused(
    game_state: GameState,
    caller: u64,
    round_id: u64,
    ends_at: i64,
    now: i64,
)
    requires
        game_state.current_round_id >= round_id,
    ensures
        create_round_check(game_state, caller, round_id, ends_at, now) is Some,
{
}

} // verus!
