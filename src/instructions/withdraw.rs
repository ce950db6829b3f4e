use vstd::prelude::*;

use crate::drain::{drain, drain_remaining, drain_transfers};
use crate::errors::UrbaniumError;
use crate::shares::{assets_for_withdraw, pooled_assets, total_assets, withdraw_assets};
use crate::state::{ReserveBalances, UserPosition, Vault};

verus! {

/// What a withdrawal reads and writes: the vault, the withdrawer's position in it, and the
/// balances of the vault's reserves before the withdrawal.
#[derive(Clone, Copy, Debug)]
pub struct Withdraw {
    pub vault: Vault,
    pub user_position: UserPosition,
    pub reserves: ReserveBalances,
}

/// The amount redeemed and how much of it each reserve pays out.
#[derive(Clone, Copy, Debug, PartialEq, Eq, Structural)]
pub struct Redemption {
    pub amount: u64,
    pub from_primary: u64,
    pub from_yield_a: u64,
    pub from_yield_b: u64,
}

/// The reserve balances in the order in which a withdrawal drains them.
pub open spec fn drain_order(reserves: ReserveBalances) -> Seq<u64> {
    seq![reserves.primary, reserves.yield_a, reserves.yield_b]
}

/// The records after redeeming `shares`, and what is paid out; or the error that rejects
/// the withdrawal.
pub open spec fn withdraw_outcome(ctx: Withdraw, shares: u64) -> Result<(Withdraw, Redemption), UrbaniumError> {
    if shares == 0 {
        Err(UrbaniumError::ZeroShares)
    } else if ctx.user_position.shares < shares {
        Err(UrbaniumError::InsufficientShares)
    } else {
        let total = pooled_assets(ctx.reserves.primary, ctx.reserves.yield_a, ctx.reserves.yield_b);
        match withdraw_assets(shares as int, total, ctx.vault.total_shares as int) {
            Err(e) => Err(e),
            Ok(amount) => {
                let order = drain_order(ctx.reserves);
                let sent = drain_transfers(order, amount);
                if drain_remaining(order, amount) != 0 {
                    Err(UrbaniumError::InsufficientLiquidity)
                } else if ctx.vault.total_shares < shares {
                    Err(UrbaniumError::ArithmeticOverflow)
                } else {
                    Ok(
                        (
                            Withdraw {
                                user_position: UserPosition {
                                    shares: (ctx.user_position.shares - shares) as u64,
                                    ..ctx.user_position
                                },
                                vault: Vault {
                                    total_shares: (ctx.vault.total_shares - shares) as u64,
                                    ..ctx.vault
                                },
                                ..ctx
                            },
                            Redemption {
                                amount,
                                from_primary: sent[0],
                                from_yield_a: sent[1],
                                from_yield_b: sent[2],
                            },
                        ),
                    )
                }
            },
        }
    }
}

/// Redeems `shares` of the withdrawer's position: computes the proportional amount, plans
/// its payment from the primary reserve, then yield A, then yield B, and debits the shares.
/// Issuing the planned transfers is left to the caller, within the same atomic operation.
/// On an error nothing changes.
pub fn handler(ctx: &mut Withdraw, shares: u64) -> (r: Result<Redemption, UrbaniumError>)
    ensures
        match withdraw_outcome(*old(ctx), shares) {
            Ok((next, paid)) => r == Ok::<Redemption, UrbaniumError>(paid) && *final(ctx) == next,
            Err(e) => r == Err::<Redemption, UrbaniumError>(e) && *final(ctx) == *old(ctx),
        },
{
    if shares == 0 {
        return Err(UrbaniumError::ZeroShares);
    }
    if ctx.user_position.shares < shares {
        return Err(UrbaniumError::InsufficientShares);
    }
    let total = match total_assets(ctx.reserves.primary, ctx.reserves.yield_a, ctx.reserves.yield_b) {
        Ok(t) => t,
        Err(e) => return Err(e),
    };
    let amount = match assets_for_withdraw(shares, total, ctx.vault.total_shares) {
        Ok(a) => a,
        Err(e) => return Err(e),
    };
    let balances: Vec<u64> = vec![ctx.reserves.primary, ctx.reserves.yield_a, ctx.reserves.yield_b];
    proof {
        assert(balances@ =~= drain_order(ctx.reserves));
    }
    let plan = drain(&balances, amount);
    if plan.remaining != 0 {
        return Err(UrbaniumError::InsufficientLiquidity);
    }
    let total_shares = match ctx.vault.total_shares.checked_sub(shares) {
        Some(s) => s,
        None => return Err(UrbaniumError::ArithmeticOverflow),
    };
    ctx.user_position.shares = ctx.user_position.shares - shares;
    ctx.vault.total_shares = total_shares;
    Ok(
        Redemption {
            amount,
            from_primary: plan.transfers[0],
            from_yield_a: plan.transfers[1],
            from_yield_b: plan.transfers[2],
        },
    )
}

/// A withdrawal of zero shares is always rejected with `ZeroShares`; the handler then leaves
/// every record as it was.
pub proof fn lemma_zero_shares_rejected(ctx: Withdraw)
    ensures
        withdraw_outcome(ctx, 0) == Err::<(Withdraw, Redemption), UrbaniumError>(UrbaniumError::ZeroShares),
{
}

} // verus!
