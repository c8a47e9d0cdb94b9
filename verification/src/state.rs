use vstd::prelude::*;

verus! {

/// Process-wide singleton: operator identity, payout destinations, the
/// monotonically increasing round counter, and the accumulated rollover
/// bookkeeping that the expiry paths credit.
///
/// Addresses are opaque principal identifiers; the engine only ever compares
/// them for equality.
#[derive(Clone, Copy, PartialEq, Eq, Structural, Debug)]
pub struct GameState {
    pub authority: u64,
    pub treasury: u64,
    pub buyback_wallet: u64,
    pub current_round_id: u64,
    pub rollover_balance: u64,
}

/// The lifecycle of a round: `Active` is the initial state, `Settled` and
/// `Expired` are terminal. No operation ever leaves a terminal state.
#[derive(Clone, Copy, PartialEq, Eq, Structural, Debug)]
pub enum RoundStatus {
    Active,
    Settled,
    Expired,
}

/// One instance of the guess-and-reveal game.
///
/// `commit_hash` is the 32-byte commitment to `"{answer}:{salt}"` published
/// before any deposit; `rollover_in` is the vault balance snapshotted at
/// creation, the carried-over stake from earlier rounds. The reveal fields
/// stay empty until a settle or expire stores them.
#[derive(Debug)]
pub struct Round {
    pub round_id: u64,
    pub commit_hash: Vec<u8>,
    pub authority: u64,
    pub ends_at: i64,
    pub status: RoundStatus,
    pub total_deposits: u64,
    pub rollover_in: u64,
    pub revealed_answer: Vec<u8>,
    pub revealed_salt: Vec<u8>,
}

/// Per-(round, participant) cumulative escrow record. Created lazily on a
/// participant's first deposit in a round; later deposits only grow `amount`.
#[derive(Clone, Copy, PartialEq, Eq, Structural, Debug)]
pub struct Deposit {
    pub round_id: u64,
    pub user: u64,
    pub amount: u64,
}

/// The single program-custodied balance holding all escrowed value across
/// all rounds.
#[derive(Clone, Copy, PartialEq, Eq, Structural, Debug)]
pub struct Vault {
    pub balance: u64,
}

/// An external account that the vault can pay: a payout destination with its
/// current balance.
#[derive(Clone, Copy, PartialEq, Eq, Structural, Debug)]
pub struct Wallet {
    pub address: u64,
    pub balance: u64,
}

impl Round {
    /// Structural well-formedness: the commitment is exactly 32 bytes and the
    /// stored reveal never exceeds the 64-byte protocol limit. Constructors
    /// establish it and every handler preserves it.
    pub open spec fn wf(self) -> bool {
        &&& self.commit_hash@.len() == 32
        &&& self.revealed_answer@.len() <= 64
        &&& self.revealed_salt@.len() <= 64
    }

    /// The value eligible for distribution: current deposits plus the
    /// rollover carried in at creation.
    pub open spec fn pool(self) -> int {
        self.total_deposits + self.rollover_in
    }

    pub open spec fn is_active(self) -> bool {
        self.status is Active
    }

    /// The fields fixed at creation and never touched again.
    pub open spec fn same_creation_fields(self, other: Round) -> bool {
        &&& self.round_id == other.round_id
        &&& self.commit_hash@ == other.commit_hash@
        &&& self.authority == other.authority
        &&& self.ends_at == other.ends_at
        &&& self.rollover_in == other.rollover_in
    }

    /// No observable field differs.
    pub open spec fn same_as(self, other: Round) -> bool {
        &&& self.same_creation_fields(other)
        &&& self.status == other.status
        &&& self.total_deposits == other.total_deposits
        &&& self.revealed_answer@ == other.revealed_answer@
        &&& self.revealed_salt@ == other.revealed_salt@
    }
}

/// The floored basis-point share `amount * bps / 10000` used by every payout
/// formula; the denominator is the fixed 10,000 of basis-point arithmetic.
pub open spec fn bps_share(amount: int, bps: int) -> int {
    amount * bps / 10000
}

} // verus!
