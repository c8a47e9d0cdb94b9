use vstd::prelude::*;

verus! {

/// Every failure an operation of this crate can report.
///
/// Each error aborts the whole operation: the contracts of the handlers
/// promise that no state visible to the caller changes when an error comes
/// back, including balances that an earlier step of the same operation would
/// have moved.
#[derive(Clone, Copy, PartialEq, Eq, Structural, Debug)]
pub enum AlonsBoxError {
    /// The caller is not the operator authority, or a payout wallet is not
    /// the configured destination for its role.
    Unauthorized,
    /// An Active-only operation found the round already settled or expired.
    RoundNotActive,
    /// The revealed answer and salt do not hash to the stored commitment.
    InvalidCommitHash,
    /// The requested evidence amounts exceed the evidence pool cap.
    InvalidPayoutSum,
    /// An addition, multiplication or balance move would leave the 64-bit
    /// unsigned range (or, for timestamps, the 64-bit signed range).
    MathOverflow,
    /// The revealed answer is longer than 64 bytes.
    AnswerTooLong,
    /// The revealed salt is longer than 64 bytes.
    SaltTooLong,
    /// The evidence wallet list and the evidence amount list differ in length.
    EvidenceMismatch,
    /// The round id is not the successor of the current round counter.
    InvalidRoundId,
    /// A storage-reclamation operation found the round still active.
    RoundStillActive,
    /// The emergency path was invoked at or before the grace deadline.
    GracePeriodNotElapsed,
    /// A round was created with an end time not strictly in the future.
    InvalidEndTime,
}

} // verus!
