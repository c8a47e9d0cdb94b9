use vstd::prelude::*;

use crate::errors::AlonsBoxError;
use crate::escrow::{holding, round_total, EscrowLedger};
use crate::events::DepositMade;
use crate::state::{Deposit, Round, RoundStatus, Vault, Wallet};

verus! {

/// Why a deposit fails, or `None` when it succeeds.
///
/// Deposits are only taken while the round is `Active`; time expiry alone
/// never closes a round. The custodial move of the stake and every
/// overflow-checked addition must go through: a participant without the
/// stake, or an addition that would leave the 64-bit range, aborts the
/// deposit with no effect at all.
pub open spec fn deposit_check(
    round: Round,
    ledger: Seq<Deposit>,
    vault: Vault,
    player: Wallet,
    amount: u64,
) -> Option<AlonsBoxError> {
    if !(round.status is Active) {
        Some(AlonsBoxError::RoundNotActive)
    } else if player.balance < amount {
        Some(AlonsBoxError::MathOverflow)
    } else if vault.balance + amount > u64::MAX {
        Some(AlonsBoxError::MathOverflow)
    } else if holding(ledger, round.round_id, player.address) + amount > u64::MAX {
        Some(AlonsBoxError::MathOverflow)
    } else if round.total_deposits + amount > u64::MAX {
        Some(AlonsBoxError::MathOverflow)
    } else {
        None
    }
}

/// Takes a participant's stake into escrow.
///
/// On success the stake moves from the participant's wallet into the vault,
/// the participant's cumulative record for this round grows by `amount`
/// (created on first deposit), and the round's deposit total grows by the
/// same amount — so the ledger's per-round sum and the round's total move in
/// lock step, and equality between them is preserved.
pub fn deposit(
    round: &mut Round,
    ledger: &mut EscrowLedger,
    vault: &mut Vault,
    player: &mut Wallet,
    amount: u64,
) -> (r: Result<DepositMade, AlonsBoxError>)
    requires
        old(ledger).wf(),
    ensures
        final(ledger).wf(),
        final(player).address == old(player).address,
        match deposit_check(*old(round), old(ledger)@, *old(vault), *old(player), amount) {
            Some(e) => r == Err::<DepositMade, AlonsBoxError>(e) && final(round).same_as(
                *old(round),
            ) && final(ledger)@ == old(ledger)@ && *final(vault) == *old(vault) && *final(player)
                == *old(player),
            None => {
                &&& r == Ok::<DepositMade, AlonsBoxError>(DepositMade {
                    round_id: old(round).round_id,
                    player: old(player).address,
                    amount,
                    total_deposits: (old(round).total_deposits + amount) as u64,
                })
                &&& final(round).same_creation_fields(*old(round))
                &&& final(round).status is Active
                &&& final(round).total_deposits == old(round).total_deposits + amount
                &&& final(round).revealed_answer@ == old(round).revealed_answer@
                &&& final(round).revealed_salt@ == old(round).revealed_salt@
                &&& final(vault).balance == old(vault).balance + amount
                &&& final(player).balance == old(player).balance - amount
                &&& holding(final(ledger)@, old(round).round_id, old(player).address) == holding(
                    old(ledger)@,
                    old(round).round_id,
                    old(player).address,
                ) + amount
                &&& round_total(final(ledger)@, old(round).round_id) == round_total(
                    old(ledger)@,
                    old(round).round_id,
                ) + amount
                &&& forall|r2: u64|
                    r2 != old(round).round_id ==> #[trigger] round_total(final(ledger)@, r2)
                        == round_total(old(ledger)@, r2)
                &&& forall|r2: u64, u2: u64|
                    !(r2 == old(round).round_id && u2 == old(player).address)
                        ==> #[trigger] holding(final(ledger)@, r2, u2) == holding(
                        old(ledger)@,
                        r2,
                        u2,
                    )
                &&& round_total(old(ledger)@, old(round).round_id) == old(round).total_deposits
                    ==> round_total(final(ledger)@, final(round).round_id)
                        == final(round).total_deposits
            },
        },
{
    if round.status != RoundStatus::Active {
        return Err(AlonsBoxError::RoundNotActive);
    }
    let round_id = round.round_id;
    let user = player.address;
    if player.balance < amount {
        return Err(AlonsBoxError::MathOverflow);
    }
    if vault.balance > u64::MAX - amount {
        return Err(AlonsBoxError::MathOverflow);
    }
    let held = ledger.holding_of(round_id, user);
    if held > u64::MAX - amount {
        return Err(AlonsBoxError::MathOverflow);
    }
    if round.total_deposits > u64::MAX - amount {
        return Err(AlonsBoxError::MathOverflow);
    }

    player.balance = player.balance - amount;
    vault.balance = vault.balance + amount;
    ledger.credit(round_id, user, amount);
    round.total_deposits = round.total_deposits + amount;

    Ok(
        DepositMade {
            round_id,
            player: user,
            amount,
            total_deposits: round.total_deposits,
        },
    )
}

} // verus!
