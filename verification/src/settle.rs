use vstd::prelude::*;

use crate::commit::{commit_preimage, sha256_of, verify_commit};
use crate::errors::AlonsBoxError;
use crate::events::RoundSettled;
use crate::state::{bps_share, GameState, Round, RoundStatus, Vault, Wallet};
use crate::utils::transfer_from_vault;

verus! {

/// Sum of a list of evidence amounts.
pub open spec fn sum_amounts(s: Seq<u64>) -> int
    decreases s.len(),
{
    if s.len() == 0 {
        0
    } else {
        sum_amounts(s.drop_last()) + s.last()
    }
}

proof fn lemma_sum_amounts_take_step(s: Seq<u64>, i: int)
    requires
        0 <= i < s.len(),
    ensures
        sum_amounts(s.take(i + 1)) == sum_amounts(s.take(i)) + s[i],
{
    assert(s.take(i + 1).drop_last() =~= s.take(i));
    assert(s.take(i + 1).last() == s[i]);
}

proof fn lemma_sum_amounts_take_le(s: Seq<u64>, k: int)
    requires
        0 <= k <= s.len(),
    ensures
        sum_amounts(s.take(k)) <= sum_amounts(s),
    decreases s.len(),
{
    if k == s.len() {
        assert(s.take(k) =~= s);
    } else {
        assert(s.take(k) =~= s.drop_last().take(k));
        lemma_sum_amounts_take_le(s.drop_last(), k);
    }
}

/// Why a settlement fails, or `None` when it succeeds.
///
/// The winning close: only the operator may call it, only on an `Active`
/// round, with the designated treasury wallet, a reveal of at most 64 bytes
/// each that hashes to the stored commitment, and one amount per evidence
/// wallet. The split takes the full pool (deposits plus carried-in
/// rollover): 50% (5000 BPS) to the winner, at most 30% (3000 BPS) shared
/// by the evidence wallets exactly as requested — a request over the cap is
/// rejected outright, never clamped — and 5% (500 BPS) to the treasury.
/// Every product, sum and custodial move is overflow-checked; any such
/// failure aborts the settlement with nothing paid.
pub open spec fn settle_check(
    game_state: GameState,
    round: Round,
    vault: Vault,
    winner: Wallet,
    treasury: Wallet,
    evidence_wallets: Seq<Wallet>,
    evidence_amounts: Seq<u64>,
    answer: Seq<u8>,
    salt: Seq<u8>,
    caller: u64,
) -> Option<AlonsBoxError> {
    let pool = round.total_deposits + round.rollover_in;
    let winner_amount = bps_share(pool, 5000);
    let evidence_pool = bps_share(pool, 3000);
    let treasury_amount = bps_share(pool, 500);
    let evidence_total = sum_amounts(evidence_amounts);
    if caller != game_state.authority {
        Some(AlonsBoxError::Unauthorized)
    } else if !(round.status is Active) {
        Some(AlonsBoxError::RoundNotActive)
    } else if treasury.address != game_state.treasury {
        Some(AlonsBoxError::Unauthorized)
    } else if answer.len() > 64 {
        Some(AlonsBoxError::AnswerTooLong)
    } else if salt.len() > 64 {
        Some(AlonsBoxError::SaltTooLong)
    } else if sha256_of(commit_preimage(answer, salt)) != round.commit_hash@ {
        Some(AlonsBoxError::InvalidCommitHash)
    } else if evidence_wallets.len() != evidence_amounts.len() {
        Some(AlonsBoxError::EvidenceMismatch)
    } else if pool > u64::MAX {
        Some(AlonsBoxError::MathOverflow)
    } else if pool * 5000 > u64::MAX {
        Some(AlonsBoxError::MathOverflow)
    } else if pool * 3000 > u64::MAX {
        Some(AlonsBoxError::MathOverflow)
    } else if pool * 500 > u64::MAX {
        Some(AlonsBoxError::MathOverflow)
    } else if evidence_total > u64::MAX {
        Some(AlonsBoxError::MathOverflow)
    } else if evidence_total > evidence_pool {
        Some(AlonsBoxError::InvalidPayoutSum)
    } else if vault.balance < winner_amount + evidence_total + treasury_amount {
        Some(AlonsBoxError::MathOverflow)
    } else if winner.balance + winner_amount > u64::MAX {
        Some(AlonsBoxError::MathOverflow)
    } else if exists|j: int|
        0 <= j < evidence_wallets.len() && #[trigger] evidence_wallets[j].balance
            + evidence_amounts[j] > u64::MAX {
        Some(AlonsBoxError::MathOverflow)
    } else if treasury.balance + treasury_amount > u64::MAX {
        Some(AlonsBoxError::MathOverflow)
    } else {
        None
    }
}

/// Settles a round around a revealed winning answer.
///
/// On success the vault pays the winner's 50% share, each requested
/// evidence amount to its wallet (zero amounts are skipped), and the
/// treasury's 5% share; the round stores the reveal and moves to `Settled`.
/// The remaining 15% plus any unspent evidence allocation — rounding dust
/// included — stays in the vault as implicit rollover for the next round,
/// never with a payout recipient. On any failure nothing changes at all.
#[verifier::loop_isolation(false)]
pub fn settle(
    game_state: &GameState,
    round: &mut Round,
    vault: &mut Vault,
    winner: &mut Wallet,
    treasury: &mut Wallet,
    evidence_wallets: &mut Vec<Wallet>,
    evidence_amounts: &Vec<u64>,
    caller: u64,
    answer: Vec<u8>,
    salt: Vec<u8>,
) -> (r: Result<RoundSettled, AlonsBoxError>)
    requires
        old(round).wf(),
    ensures
        final(round).wf(),
        final(winner).address == old(winner).address,
        final(treasury).address == old(treasury).address,
        final(evidence_wallets)@.len() == old(evidence_wallets)@.len(),
        forall|j: int|
            #![trigger final(evidence_wallets)@[j]]
            0 <= j < old(evidence_wallets)@.len()
                ==> final(evidence_wallets)@[j].address == old(evidence_wallets)@[j].address,
        match settle_check(
            *game_state,
            *old(round),
            *old(vault),
            *old(winner),
            *old(treasury),
            old(evidence_wallets)@,
            evidence_amounts@,
            answer@,
            salt@,
            caller,
        ) {
            Some(e) => {
                &&& r == Err::<RoundSettled, AlonsBoxError>(e)
                &&& final(round).same_as(*old(round))
                &&& *final(vault) == *old(vault)
                &&& *final(winner) == *old(winner)
                &&& *final(treasury) == *old(treasury)
                &&& final(evidence_wallets)@ == old(evidence_wallets)@
            },
            None => {
                let pool = old(round).total_deposits + old(round).rollover_in;
                let winner_amount = bps_share(pool, 5000);
                let treasury_amount = bps_share(pool, 500);
                let evidence_total = sum_amounts(evidence_amounts@);
                &&& r == Ok::<RoundSettled, AlonsBoxError>(RoundSettled {
                    round_id: old(round).round_id,
                    winner: old(winner).address,
                    pool: pool as u64,
                    winner_amount: winner_amount as u64,
                    evidence_total: evidence_total as u64,
                    treasury_amount: treasury_amount as u64,
                })
                &&& final(vault).balance == old(vault).balance - winner_amount - evidence_total
                    - treasury_amount
                &&& final(winner).balance == old(winner).balance + winner_amount
                &&& final(treasury).balance == old(treasury).balance + treasury_amount
                &&& forall|j: int|
                    #![trigger final(evidence_wallets)@[j]]
                    0 <= j < old(evidence_wallets)@.len()
                        ==> final(evidence_wallets)@[j].balance == old(evidence_wallets)@[j].balance
                        + evidence_amounts@[j]
                &&& final(round).same_creation_fields(*old(round))
                &&& final(round).status is Settled
                &&& final(round).total_deposits == old(round).total_deposits
                &&& final(round).revealed_answer@ == answer@
                &&& final(round).revealed_salt@ == salt@
            },
        },
{
    if caller != game_state.authority {
        return Err(AlonsBoxError::Unauthorized);
    }
    if round.status != RoundStatus::Active {
        return Err(AlonsBoxError::RoundNotActive);
    }
    if treasury.address != game_state.treasury {
        return Err(AlonsBoxError::Unauthorized);
    }
    if answer.len() > 64 {
        return Err(AlonsBoxError::AnswerTooLong);
    }
    if salt.len() > 64 {
        return Err(AlonsBoxError::SaltTooLong);
    }
    if !verify_commit(&answer, &salt, &round.commit_hash) {
        return Err(AlonsBoxError::InvalidCommitHash);
    }
    let n = evidence_wallets.len();
    if n != evidence_amounts.len() {
        return Err(AlonsBoxError::EvidenceMismatch);
    }

    let pool = match round.total_deposits.checked_add(round.rollover_in) {
        Some(p) => p,
        None => {
            return Err(AlonsBoxError::MathOverflow);
        },
    };
    let winner_amount = match pool.checked_mul(5000) {
        Some(x) => x / 10000,
        None => {
            return Err(AlonsBoxError::MathOverflow);
        },
    };
    let evidence_pool = match pool.checked_mul(3000) {
        Some(x) => x / 10000,
        None => {
            return Err(AlonsBoxError::MathOverflow);
        },
    };
    let treasury_amount = match pool.checked_mul(500) {
        Some(x) => x / 10000,
        None => {
            return Err(AlonsBoxError::MathOverflow);
        },
    };

    let mut evidence_total: u64 = 0;
    let mut i: usize = 0;
    while i < n
        invariant
            i <= n,
            n == evidence_amounts@.len(),
            evidence_total == sum_amounts(evidence_amounts@.take(i as int)),
        decreases n - i,
    {
        let a = evidence_amounts[i];
        proof {
            lemma_sum_amounts_take_step(evidence_amounts@, i as int);
        }
        match evidence_total.checked_add(a) {
            Some(t) => {
                evidence_total = t;
            },
            None => {
                proof {
                    lemma_sum_amounts_take_le(evidence_amounts@, i as int + 1);
                }
                return Err(AlonsBoxError::MathOverflow);
            },
        }
        i = i + 1;
    }
    proof {
        assert(evidence_amounts@.take(n as int) =~= evidence_amounts@);
    }

    if evidence_total > evidence_pool {
        return Err(AlonsBoxError::InvalidPayoutSum);
    }

    if winner.balance > u64::MAX - winner_amount {
        return Err(AlonsBoxError::MathOverflow);
    }
    let mut i: usize = 0;
    while i < n
        invariant
            i <= n,
            n == evidence_amounts@.len(),
            n == evidence_wallets@.len(),
            forall|j: int|
                0 <= j < i ==> #[trigger] evidence_wallets@[j].balance + evidence_amounts@[j]
                    <= u64::MAX,
        decreases n - i,
    {
        if evidence_wallets[i].balance > u64::MAX - evidence_amounts[i] {
            return Err(AlonsBoxError::MathOverflow);
        }
        i = i + 1;
    }
    if treasury.balance > u64::MAX - treasury_amount {
        return Err(AlonsBoxError::MathOverflow);
    }
    let outflow: u128 = winner_amount as u128 + evidence_total as u128 + treasury_amount as u128;
    if (vault.balance as u128) < outflow {
        return Err(AlonsBoxError::MathOverflow);
    }

    // The checks above prove every transfer below returns Ok, so the
    // discarded results carry no information.
    let _ = transfer_from_vault(vault, winner, winner_amount);

    let mut i: usize = 0;
    while i < n
        invariant
            i <= n,
            n == evidence_wallets@.len(),
            vault.balance == old(vault).balance - winner_amount - sum_amounts(
                evidence_amounts@.take(i as int),
            ),
            forall|j: int|
                #![trigger evidence_wallets@[j]]
                0 <= j < i ==> evidence_wallets@[j].address == old(evidence_wallets)@[j].address
                    && evidence_wallets@[j].balance == old(evidence_wallets)@[j].balance
                    + evidence_amounts@[j],
            forall|j: int|
                #![trigger evidence_wallets@[j]]
                i <= j < n ==> evidence_wallets@[j] == old(evidence_wallets)@[j],
        decreases n - i,
    {
        let a = evidence_amounts[i];
        let ghost pre = evidence_wallets@;
        proof {
            lemma_sum_amounts_take_step(evidence_amounts@, i as int);
            lemma_sum_amounts_take_le(evidence_amounts@, i as int + 1);
            assert(vault.balance >= a);
        }
        if a > 0 {
            let _ = transfer_from_vault(vault, &mut evidence_wallets[i], a);
        }
        proof {
            assert forall|j: int|
                #![trigger evidence_wallets@[j]]
                0 <= j < i + 1 implies evidence_wallets@[j].address
                == old(evidence_wallets)@[j].address && evidence_wallets@[j].balance
                == old(evidence_wallets)@[j].balance + evidence_amounts@[j] by {
                if j < i {
                    assert(evidence_wallets@[j] == pre[j]);
                } else {
                    assert(pre[j] == old(evidence_wallets)@[j]);
                }
            }
        }
        i = i + 1;
    }
    proof {
        assert(evidence_amounts@.take(n as int) =~= evidence_amounts@);
    }

    let _ = transfer_from_vault(vault, treasury, treasury_amount);

    round.status = RoundStatus::Settled;
    round.revealed_answer = answer;
    round.revealed_salt = salt;

    Ok(
        RoundSettled {
            round_id: round.round_id,
            winner: winner.address,
            pool,
            winner_amount,
            evidence_total,
            treasury_amount,
        },
    )
}

} // verus!
