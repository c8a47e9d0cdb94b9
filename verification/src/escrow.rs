use vstd::prelude::*;

use crate::state::Deposit;

verus! {

/// Sum of the cumulative amounts of all records belonging to `round_id`.
pub open spec fn round_total(s: Seq<Deposit>, round_id: u64) -> int
    decreases s.len(),
{
    if s.len() == 0 {
        0
    } else {
        round_total(s.drop_last(), round_id) + if s.last().round_id == round_id {
            s.last().amount as int
        } else {
            0int
        }
    }
}

/// The cumulative amount one participant holds in one round (0 when no
/// record exists).
pub open spec fn holding(s: Seq<Deposit>, round_id: u64, user: u64) -> int
    decreases s.len(),
{
    if s.len() == 0 {
        0
    } else {
        holding(s.drop_last(), round_id, user) + if s.last().round_id == round_id
            && s.last().user == user {
            s.last().amount as int
        } else {
            0int
        }
    }
}

/// At most one record per (round, participant) pair.
pub open spec fn keys_unique(s: Seq<Deposit>) -> bool {
    forall|i: int, j: int|
        #![trigger s[i], s[j]]
        0 <= i < s.len() && 0 <= j < s.len() && i != j ==> !(s[i].round_id == s[j].round_id
            && s[i].user == s[j].user)
}

proof fn lemma_round_total_update(s: Seq<Deposit>, i: int, v: Deposit, round_id: u64)
    requires
        0 <= i < s.len(),
    ensures
        round_total(s.update(i, v), round_id) == round_total(s, round_id) - (if s[i].round_id
            == round_id {
            s[i].amount as int
        } else {
            0int
        }) + (if v.round_id == round_id {
            v.amount as int
        } else {
            0int
        }),
    decreases s.len(),
{
    let t = s.update(i, v);
    if i == s.len() - 1 {
        assert(t.drop_last() =~= s.drop_last());
    } else {
        assert(t.drop_last() =~= s.drop_last().update(i, v));
        lemma_round_total_update(s.drop_last(), i, v, round_id);
    }
}

proof fn lemma_holding_update(s: Seq<Deposit>, i: int, v: Deposit, round_id: u64, user: u64)
    requires
        0 <= i < s.len(),
    ensures
        holding(s.update(i, v), round_id, user) == holding(s, round_id, user) - (if s[i].round_id
            == round_id && s[i].user == user {
            s[i].amount as int
        } else {
            0int
        }) + (if v.round_id == round_id && v.user == user {
            v.amount as int
        } else {
            0int
        }),
    decreases s.len(),
{
    let t = s.update(i, v);
    if i == s.len() - 1 {
        assert(t.drop_last() =~= s.drop_last());
    } else {
        assert(t.drop_last() =~= s.drop_last().update(i, v));
        lemma_holding_update(s.drop_last(), i, v, round_id, user);
    }
}

proof fn lemma_round_total_push(s: Seq<Deposit>, v: Deposit, round_id: u64)
    ensures
        round_total(s.push(v), round_id) == round_total(s, round_id) + (if v.round_id == round_id {
            v.amount as int
        } else {
            0int
        }),
{
    assert(s.push(v).drop_last() =~= s);
}

proof fn lemma_holding_push(s: Seq<Deposit>, v: Deposit, round_id: u64, user: u64)
    ensures
        holding(s.push(v), round_id, user) == holding(s, round_id, user) + (if v.round_id
            == round_id && v.user == user {
            v.amount as int
        } else {
            0int
        }),
{
    assert(s.push(v).drop_last() =~= s);
}

/// When no record carries the key, the participant holds nothing.
proof fn lemma_holding_absent(s: Seq<Deposit>, round_id: u64, user: u64)
    requires
        forall|j: int|
            0 <= j < s.len() ==> !(#[trigger] s[j].round_id == round_id && s[j].user == user),
    ensures
        holding(s, round_id, user) == 0,
    decreases s.len(),
{
    if s.len() > 0 {
        assert(s[s.len() - 1] == s.last());
        lemma_holding_absent(s.drop_last(), round_id, user);
    }
}

/// A round no record belongs to has an escrow sum of zero. Together with
/// `deposit`'s contract — each successful deposit grows the round's escrow
/// sum and the round's deposit total by the same amount — this gives the
/// ledger invariant: for every sequence of deposits into a freshly created
/// round, the sum of its cumulative records equals the round's
/// `total_deposits`.
pub proof fn lemma_round_total_absent(s: Seq<Deposit>, round_id: u64)
    requires
        forall|j: int| 0 <= j < s.len() ==> (#[trigger] s[j].round_id) != round_id,
    ensures
        round_total(s, round_id) == 0,
    decreases s.len(),
{
    if s.len() > 0 {
        assert(s[s.len() - 1] == s.last());
        lemma_round_total_absent(s.drop_last(), round_id);
    }
}

/// When exactly the record at `i` carries the key, the participant holds its
/// amount.
proof fn lemma_holding_single(s: Seq<Deposit>, i: int, round_id: u64, user: u64)
    requires
        0 <= i < s.len(),
        s[i].round_id == round_id && s[i].user == user,
        forall|j: int|
            0 <= j < s.len() && j != i ==> !(#[trigger] s[j].round_id == round_id && s[j].user
                == user),
    ensures
        holding(s, round_id, user) == s[i].amount,
    decreases s.len(),
{
    if i == s.len() - 1 {
        lemma_holding_absent(s.drop_last(), round_id, user);
    } else {
        assert(s[s.len() - 1] == s.last());
        lemma_holding_single(s.drop_last(), i, round_id, user);
    }
}

/// Per-round escrow ledger: one lazily created cumulative record per
/// (round, participant) pair.
pub struct EscrowLedger {
    pub records: Vec<Deposit>,
}

impl View for EscrowLedger {
    type V = Seq<Deposit>;

    open spec fn view(&self) -> Seq<Deposit> {
        self.records@
    }
}

impl EscrowLedger {
    /// Well-formedness: no two records share a (round, participant) key, so
    /// each participant's stake in a round is a single cumulative amount.
    pub open spec fn wf(self) -> bool {
        keys_unique(self@)
    }

    pub fn new() -> (r: EscrowLedger)
        ensures
            r@ =~= Seq::<Deposit>::empty(),
            r.wf(),
    {
        EscrowLedger { records: Vec::new() }
    }

    /// Index of the record with the given key, if one exists.
    fn find(&self, round_id: u64, user: u64) -> (r: Option<usize>)
        ensures
            match r {
                Some(i) => i < self@.len() && self@[i as int].round_id == round_id
                    && self@[i as int].user == user,
                None => forall|j: int|
                    0 <= j < self@.len() ==> !(#[trigger] self@[j].round_id == round_id
                        && self@[j].user == user),
            },
    {
        let mut i: usize = 0;
        let n = self.records.len();
        while i < n
            invariant
                i <= n,
                n == self@.len(),
                forall|j: int|
                    0 <= j < i ==> !(#[trigger] self@[j].round_id == round_id && self@[j].user
                        == user),
            decreases n - i,
        {
            let rec = self.records[i];
            if rec.round_id == round_id && rec.user == user {
                return Some(i);
            }
            i = i + 1;
        }
        None
    }

    /// The participant's current cumulative amount in the round.
    pub fn holding_of(&self, round_id: u64, user: u64) -> (r: u64)
        requires
            self.wf(),
        ensures
            r == holding(self@, round_id, user),
    {
        match self.find(round_id, user) {
            Some(i) => {
                proof {
                    lemma_holding_single(self@, i as int, round_id, user);
                }
                self.records[i].amount
            },
            None => {
                proof {
                    lemma_holding_absent(self@, round_id, user);
                }
                0
            },
        }
    }

    /// Insert-or-update: adds `amount` to the participant's cumulative
    /// record for the round, creating the record on the first deposit.
    /// Returns the new cumulative amount.
    pub fn credit(&mut self, round_id: u64, user: u64, amount: u64) -> (r: u64)
        requires
            old(self).wf(),
            holding(old(self)@, round_id, user) + amount <= u64::MAX,
        ensures
            final(self).wf(),
            r == holding(old(self)@, round_id, user) + amount,
            holding(final(self)@, round_id, user) == holding(old(self)@, round_id, user) + amount,
            round_total(final(self)@, round_id) == round_total(old(self)@, round_id) + amount,
            forall|r2: u64|
                r2 != round_id ==> #[trigger] round_total(final(self)@, r2) == round_total(
                    old(self)@,
                    r2,
                ),
            forall|r2: u64, u2: u64|
                !(r2 == round_id && u2 == user) ==> #[trigger] holding(final(self)@, r2, u2)
                    == holding(old(self)@, r2, u2),
    {
        match self.find(round_id, user) {
            Some(i) => {
                let prev = self.records[i];
                proof {
                    lemma_holding_single(self@, i as int, round_id, user);
                }
                let updated = Deposit { round_id, user, amount: prev.amount + amount };
                self.records[i] = updated;
                proof {
                    let s = old(self)@;
                    assert(final(self)@ =~= s.update(i as int, updated));
                    lemma_holding_update(s, i as int, updated, round_id, user);
                    lemma_round_total_update(s, i as int, updated, round_id);
                    assert forall|r2: u64| r2 != round_id implies #[trigger] round_total(
                        final(self)@,
                        r2,
                    ) == round_total(s, r2) by {
                        lemma_round_total_update(s, i as int, updated, r2);
                    }
                    assert forall|r2: u64, u2: u64| !(r2 == round_id && u2 == user)
                        implies #[trigger] holding(final(self)@, r2, u2) == holding(s, r2, u2) by {
                        lemma_holding_update(s, i as int, updated, r2, u2);
                    }
                }
                prev.amount + amount
            },
            None => {
                proof {
                    lemma_holding_absent(self@, round_id, user);
                }
                let created = Deposit { round_id, user, amount };
                self.records.push(created);
                proof {
                    let s = old(self)@;
                    assert(final(self)@ =~= s.push(created));
                    lemma_holding_push(s, created, round_id, user);
                    lemma_round_total_push(s, created, round_id);
                    assert forall|r2: u64| r2 != round_id implies #[trigger] round_total(
                        final(self)@,
                        r2,
                    ) == round_total(s, r2) by {
                        lemma_round_total_push(s, created, r2);
                    }
                    assert forall|r2: u64, u2: u64| !(r2 == round_id && u2 == user)
                        implies #[trigger] holding(final(self)@, r2, u2) == holding(s, r2, u2) by {
                        lemma_holding_push(s, created, r2, u2);
                    }
                }
                amount
            },
        }
    }
}

} // verus!
