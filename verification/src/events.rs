use vstd::prelude::*;

verus! {

/// Notification returned by `initialize`.
#[derive(Clone, Copy, PartialEq, Eq, Structural, Debug)]
pub struct GameInitialized {
    pub authority: u64,
    pub treasury: u64,
    pub buyback_wallet: u64,
}

/// Notification returned by `create_round`.
#[derive(Clone, Copy, PartialEq, Eq, Structural, Debug)]
pub struct RoundCreated {
    pub round_id: u64,
    pub ends_at: i64,
    pub rollover_in: u64,
}

/// Notification returned by `deposit`.
#[derive(Clone, Copy, PartialEq, Eq, Structural, Debug)]
pub struct DepositMade {
    pub round_id: u64,
    pub player: u64,
    pub amount: u64,
    pub total_deposits: u64,
}

/// Notification returned by `settle`.
#[derive(Clone, Copy, PartialEq, Eq, Structural, Debug)]
pub struct RoundSettled {
    pub round_id: u64,
    pub winner: u64,
    pub pool: u64,
    pub winner_amount: u64,
    pub evidence_total: u64,
    pub treasury_amount: u64,
}

/// Notification returned by `expire`.
#[derive(Clone, Copy, PartialEq, Eq, Structural, Debug)]
pub struct RoundExpired {
    pub round_id: u64,
    pub pool: u64,
    pub buyback_amount: u64,
    pub treasury_amount: u64,
}

/// Notification returned by `emergency_expire`.
#[derive(Clone, Copy, PartialEq, Eq, Structural, Debug)]
pub struct EmergencyExpired {
    pub round_id: u64,
    pub pool: u64,
    pub buyback_amount: u64,
    pub treasury_amount: u64,
    pub caller: u64,
}

/// Notification returned by `close_deposit`.
#[derive(Clone, Copy, PartialEq, Eq, Structural, Debug)]
pub struct DepositClosed {
    pub round_id: u64,
    pub player: u64,
    pub rent_recovered: u64,
}

/// Notification returned by `close_round`.
#[derive(Clone, Copy, PartialEq, Eq, Structural, Debug)]
pub struct RoundClosed {
    pub round_id: u64,
    pub rent_recovered: u64,
}

} // verus!
