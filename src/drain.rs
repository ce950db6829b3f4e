use vstd::prelude::*;

verus! {

/// What one reserve contributes towards `remaining`: all of it, or its whole balance.
pub open spec fn contribution(available: u64, remaining: u64) -> u64 {
    if available < remaining {
        available
    } else {
        remaining
    }
}

/// The amounts taken from each reserve, in order, when `remaining` is drained from
/// `balances`.
pub open spec fn drain_transfers(balances: Seq<u64>, remaining: u64) -> Seq<u64>
    decreases balances.len(),
{
    if balances.len() == 0 {
        seq![]
    } else {
        let t = contribution(balances[0], remaining);
        seq![t] + drain_transfers(balances.drop_first(), (remaining - t) as u64)
    }
}

/// What is left unpaid once every reserve of `balances` has been drained.
pub open spec fn drain_remaining(balances: Seq<u64>, remaining: u64) -> u64
    decreases balances.len(),
{
    if balances.len() == 0 {
        remaining
    } else {
        let t = contribution(balances[0], remaining);
        drain_remaining(balances.drop_first(), (remaining - t) as u64)
    }
}

pub open spec fn seq_sum(s: Seq<u64>) -> int
    decreases s.len(),
{
    if s.len() == 0 {
        0
    } else {
        s[0] + seq_sum(s.drop_first())
    }
}

/// Transfers planned by the drain, one per reserve, and the amount left unpaid.
pub struct DrainPlan {
    pub transfers: Vec<u64>,
    pub remaining: u64,
}

/// The amount to take from a reserve holding `available` while `remaining` is still
/// owed, and what is owed afterwards.
pub fn transfer_up_to(available: u64, remaining: u64) -> (r: (u64, u64))
    ensures
        r.0 == contribution(available, remaining),
        r.1 == remaining - r.0,
{
    if remaining == 0 {
        return (0, 0);
    }
    if available == 0 {
        return (0, remaining);
    }
    let to_send = if available < remaining { available } else { remaining };
    (to_send, remaining - to_send)
}

proof fn lemma_drain_step(balances: Seq<u64>, i: int, remaining: u64)
    requires
        0 <= i < balances.len(),
    ensures
        drain_transfers(balances.subrange(i, balances.len() as int), remaining) == seq![
            contribution(balances[i], remaining),
        ] + drain_transfers(
            balances.subrange(i + 1, balances.len() as int),
            (remaining - contribution(balances[i], remaining)) as u64,
        ),
        drain_remaining(balances.subrange(i, balances.len() as int), remaining) == drain_remaining(
            balances.subrange(i + 1, balances.len() as int),
            (remaining - contribution(balances[i], remaining)) as u64,
        ),
{
    let rest = balances.subrange(i, balances.len() as int);
    assert(rest.drop_first() =~= balances.subrange(i + 1, balances.len() as int));
}

/// Proves that the drain pays out exactly what it does not leave unpaid, and never
/// more than a reserve holds.
pub proof fn lemma_drain_conserves(balances: Seq<u64>, remaining: u64)
    ensures
        seq_sum(drain_transfers(balances, remaining)) + drain_remaining(balances, remaining) == remaining,
        drain_transfers(balances, remaining).len() == balances.len(),
        forall|i: int|
            0 <= i < balances.len() ==> #[trigger] drain_transfers(balances, remaining)[i] <= balances[i],
    decreases balances.len(),
{
    if balances.len() > 0 {
        let t = contribution(balances[0], remaining);
        let tail = balances.drop_first();
        lemma_drain_conserves(tail, (remaining - t) as u64);
        let ts = drain_transfers(balances, remaining);
        assert(ts.drop_first() =~= drain_transfers(tail, (remaining - t) as u64));
        assert forall|i: int| 0 <= i < balances.len() implies #[trigger] ts[i] <= balances[i] by {
            if i > 0 {
                assert(ts[i] == drain_transfers(tail, (remaining - t) as u64)[i - 1]);
            }
        }
    }
}

/// Withdraws `amount` from `balances` in their order, taking from each reserve as much
/// as it holds until nothing is owed.
pub fn drain(balances: &Vec<u64>, amount: u64) -> (r: DrainPlan)
    ensures
        r.transfers@ == drain_transfers(balances@, amount),
        r.remaining == drain_remaining(balances@, amount),
        r.transfers@.len() == balances@.len(),
        seq_sum(r.transfers@) + r.remaining == amount,
{
    let mut transfers: Vec<u64> = Vec::new();
    let mut remaining: u64 = amount;
    let mut i: usize = 0;
    proof {
        assert(balances@.subrange(0, balances@.len() as int) =~= balances@);
        assert(transfers@ + drain_transfers(balances@, amount) =~= drain_transfers(balances@, amount));
    }
    while i < balances.len()
        invariant
            0 <= i <= balances@.len(),
            drain_transfers(balances@, amount) == transfers@ + drain_transfers(
                balances@.subrange(i as int, balances@.len() as int),
                remaining,
            ),
            drain_remaining(balances@, amount) == drain_remaining(
                balances@.subrange(i as int, balances@.len() as int),
                remaining,
            ),
        decreases balances@.len() - i,
    {
        let (to_send, rest) = transfer_up_to(balances[i], remaining);
        proof {
            lemma_drain_step(balances@, i as int, remaining);
            assert(transfers@.push(to_send) + drain_transfers(
                balances@.subrange(i + 1, balances@.len() as int),
                rest,
            ) =~= transfers@ + drain_transfers(
                balances@.subrange(i as int, balances@.len() as int),
                remaining,
            ));
        }
        transfers.push(to_send);
        remaining = rest;
        i = i + 1;
    }
    proof {
        assert(balances@.subrange(i as int, balances@.len() as int) =~= Seq::<u64>::empty());
        assert(transfers@ + Seq::<u64>::empty() =~= transfers@);
        lemma_drain_conserves(balances@, amount);
    }
    DrainPlan { transfers, remaining }
}

} // verus!
