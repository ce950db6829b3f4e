use vstd::prelude::*;

use crate::drain::seq_sum;
use crate::instructions::deposit::{deposit_outcome, Deposit};
use crate::instructions::withdraw::{withdraw_outcome, Withdraw};

verus! {

/// Replacing one entry of `s` by `v` changes its sum by the difference.
pub proof fn lemma_sum_update(s: Seq<u64>, i: int, v: u64)
    requires
        0 <= i < s.len(),
    ensures
        seq_sum(s.update(i, v)) == seq_sum(s) - s[i] + v,
    decreases s.len(),
{
    if i == 0 {
        assert(s.update(i, v).drop_first() =~= s.drop_first());
    } else {
        lemma_sum_update(s.drop_first(), i - 1, v);
        assert(s.update(i, v).drop_first() =~= s.drop_first().update(i - 1, v));
    }
}

/// A deposit keeps the shares of all positions within the vault's share supply: where
/// `holdings` lists the shares of every position of the vault, entry `i` being the
/// depositor's, and sums to at most the supply, the same holds after the deposit.
pub proof fn lemma_deposit_keeps_supply_bound(holdings: Seq<u64>, i: int, ctx: Deposit, amount: u64)
    requires
        0 <= i < holdings.len(),
        holdings[i] == ctx.user_position.shares,
        seq_sum(holdings) <= ctx.vault.total_shares,
    ensures
        match deposit_outcome(ctx, amount) {
            Ok((next, _)) => seq_sum(holdings.update(i, next.user_position.shares))
                <= next.vault.total_shares,
            Err(_) => true,
        },
{
    if let Ok((next, _)) = deposit_outcome(ctx, amount) {
        lemma_sum_update(holdings, i, next.user_position.shares);
    }
}

/// A withdrawal keeps the shares of all positions within the vault's share supply, and a
/// withdrawal of more shares than the supply holds is rejected rather than taking the
/// supply below zero.
pub proof fn lemma_withdraw_keeps_supply_bound(holdings: Seq<u64>, i: int, ctx: Withdraw, shares: u64)
    requires
        0 <= i < holdings.len(),
        holdings[i] == ctx.user_position.shares,
        seq_sum(holdings) <= ctx.vault.total_shares,
    ensures
        ctx.vault.total_shares < shares ==> withdraw_outcome(ctx, shares) is Err,
        match withdraw_outcome(ctx, shares) {
            Ok((next, _)) => seq_sum(holdings.update(i, next.user_position.shares))
                <= next.vault.total_shares && next.vault.total_shares == ctx.vault.total_shares
                - shares,
            Err(_) => true,
        },
{
    if let Ok((next, _)) = withdraw_outcome(ctx, shares) {
        lemma_sum_update(holdings, i, next.user_position.shares);
    }
}

} // verus!
