use vstd::prelude::*;

use crate::events::GameInitialized;
use crate::state::{GameState, Vault};

verus! {

/// One-time setup: creates the singleton game ledger and the empty vault.
///
/// The caller becomes the operator authority; the two payout destinations
/// are fixed here for the lifetime of the game. The round counter starts at
/// 0, so the first round to be created is round 1.
pub fn initialize(authority: u64, treasury: u64, buyback_wallet: u64) -> (r: (
    GameState,
    Vault,
    GameInitialized,
))
    ensures
        r.0 == (GameState {
            authority,
            treasury,
            buyback_wallet,
            current_round_id: 0,
            rollover_balance: 0,
        }),
        r.1 == (Vault { balance: 0 }),
        r.2 == (GameInitialized { authority, treasury, buyback_wallet }),
{
    let game_state = GameState {
        authority,
        treasury,
        buyback_wallet,
        current_round_id: 0,
        rollover_balance: 0,
    };
    let vault = Vault { balance: 0 };
    let event = GameInitialized { authority, treasury, buyback_wallet };
    (game_state, vault, event)
}

} // verus!
