use vstd::prelude::*;

use crate::errors::AlonsBoxError;
use crate::events::{DepositClosed, RoundClosed};
use crate::state::{Deposit, GameState, Round};

verus! {

/// Why reclaiming an escrow record fails, or `None` when it is allowed.
///
/// Storage reclamation itself is out of scope here; these guards only say
/// when the operator may reclaim: never while the round is still `Active`,
/// and only for a record that belongs to the round.
pub open spec fn close_deposit_check(
    game_state: GameState,
    round: Round,
    record: Deposit,
    caller: u64,
) -> Option<AlonsBoxError> {
    if caller != game_state.authority {
        Some(AlonsBoxError::Unauthorized)
    } else if round.status is Active {
        Some(AlonsBoxError::RoundStillActive)
    } else if record.round_id != round.round_id {
        Some(AlonsBoxError::InvalidRoundId)
    } else {
        None
    }
}

/// Allows the operator to reclaim a terminal round's escrow record;
/// `rent_recovered` is the storage deposit the environment hands back.
pub fn close_deposit(
    game_state: &GameState,
    round: &Round,
    record: &Deposit,
    caller: u64,
    rent_recovered: u64,
) -> (r: Result<DepositClosed, AlonsBoxError>)
    ensures
        match close_deposit_check(*game_state, *round, *record, caller) {
            Some(e) => r == Err::<DepositClosed, AlonsBoxError>(e),
            None => r == Ok::<DepositClosed, AlonsBoxError>(DepositClosed {
                round_id: record.round_id,
                player: record.user,
                rent_recovered,
            }),
        },
{
    if caller != game_state.authority {
        return Err(AlonsBoxError::Unauthorized);
    }
    if round.status == crate::state::RoundStatus::Active {
        return Err(AlonsBoxError::RoundStillActive);
    }
    if record.round_id != round.round_id {
        return Err(AlonsBoxError::InvalidRoundId);
    }
    Ok(DepositClosed { round_id: record.round_id, player: record.user, rent_recovered })
}

/// Why reclaiming a round record fails, or `None` when it is allowed.
pub open spec fn close_round_check(game_state: GameState, round: Round, caller: u64) -> Option<
    AlonsBoxError,
> {
    if caller != game_state.authority {
        Some(AlonsBoxError::Unauthorized)
    } else if round.status is Active {
        Some(AlonsBoxError::RoundStillActive)
    } else {
        None
    }
}

/// Allows the operator to reclaim a terminal round's own record;
/// `rent_recovered` is the storage deposit the environment hands back.
pub fn close_round(game_state: &GameState, round: &Round, caller: u64, rent_recovered: u64) -> (r:
    Result<RoundClosed, AlonsBoxError>)
    ensures
        match close_round_check(*game_state, *round, caller) {
            Some(e) => r == Err::<RoundClosed, AlonsBoxError>(e),
            None => r == Ok::<RoundClosed, AlonsBoxError>(RoundClosed {
                round_id: round.round_id,
                rent_recovered,
            }),
        },
{
    if caller != game_state.authority {
        return Err(AlonsBoxError::Unauthorized);
    }
    if round.status == crate::state::RoundStatus::Active {
        return Err(AlonsBoxError::RoundStillActive);
    }
    Ok(RoundClosed { round_id: round.round_id, rent_recovered })
}

} // verus!
