use vstd::prelude::*;

use crate::errors::UrbaniumError;
use crate::pda::{program_address, user_position_pda, USER_POSITION_SEED};
use crate::shares::{deposit_shares, pooled_assets, shares_for_deposit, total_assets};
use crate::state::{Address, ReserveBalances, UserPosition, Vault};
use vstd::string::StringSliceAdditionalSpecFns;

verus! {

/// What a deposit reads and writes: the depositor, the vault and the depositor's position
/// in it, and the balances of the vault's reserves before the deposit.
#[derive(Clone, Copy, Debug)]
pub struct Deposit {
    pub program_id: Address,
    pub depositor: Address,
    pub vault_key: Address,
    pub vault: Vault,
    pub user_position: UserPosition,
    pub reserves: ReserveBalances,
}

/// The position after `minted` shares are credited; a position without shares is (re)bound
/// to the vault and the depositor first.
pub open spec fn credited_position(ctx: Deposit, minted: u64) -> UserPosition {
    if ctx.user_position.shares == 0 {
        UserPosition {
            bump: program_address(
                seq![USER_POSITION_SEED.spec_bytes(), ctx.vault_key.bytes@, ctx.depositor.bytes@],
                ctx.program_id.bytes@,
            ).1,
            vault: ctx.vault_key,
            owner: ctx.depositor,
            shares: minted,
        }
    } else {
        UserPosition { shares: (ctx.user_position.shares + minted) as u64, ..ctx.user_position }
    }
}

/// The records after a deposit of `amount`, and the shares it mints; or the error that
/// rejects it.
pub open spec fn deposit_outcome(ctx: Deposit, amount: u64) -> Result<(Deposit, u64), UrbaniumError> {
    if amount == 0 {
        Err(UrbaniumError::ZeroAmount)
    } else {
        let total = pooled_assets(ctx.reserves.primary, ctx.reserves.yield_a, ctx.reserves.yield_b);
        match deposit_shares(amount as int, total, ctx.vault.total_shares as int) {
            Err(e) => Err(e),
            Ok(minted) => if ctx.user_position.shares + minted > u64::MAX
                || ctx.vault.total_shares + minted > u64::MAX {
                Err(UrbaniumError::ArithmeticOverflow)
            } else {
                Ok(
                    (
                        Deposit {
                            user_position: credited_position(ctx, minted),
                            vault: Vault {
                                total_shares: (ctx.vault.total_shares + minted) as u64,
                                ..ctx.vault
                            },
                            ..ctx
                        },
                        minted,
                    ),
                )
            },
        }
    }
}

/// Mints shares for a deposit of `amount` and credits them to the depositor's position and
/// to the vault's supply. Moving the asset into the primary reserve is left to the caller,
/// within the same atomic operation. On an error nothing changes.
pub fn handler(ctx: &mut Deposit, amount: u64) -> (r: Result<u64, UrbaniumError>)
    ensures
        match deposit_outcome(*old(ctx), amount) {
            Ok((next, minted)) => r == Ok::<u64, UrbaniumError>(minted) && *final(ctx) == next,
            Err(e) => r == Err::<u64, UrbaniumError>(e) && *final(ctx) == *old(ctx),
        },
{
    if amount == 0 {
        return Err(UrbaniumError::ZeroAmount);
    }
    let total = match total_assets(ctx.reserves.primary, ctx.reserves.yield_a, ctx.reserves.yield_b) {
        Ok(t) => t,
        Err(e) => return Err(e),
    };
    let minted = match shares_for_deposit(amount, total, ctx.vault.total_shares) {
        Ok(m) => m,
        Err(e) => return Err(e),
    };
    let position_shares = match ctx.user_position.shares.checked_add(minted) {
        Some(s) => s,
        None => return Err(UrbaniumError::ArithmeticOverflow),
    };
    let total_shares = match ctx.vault.total_shares.checked_add(minted) {
        Some(s) => s,
        None => return Err(UrbaniumError::ArithmeticOverflow),
    };
    if ctx.user_position.shares == 0 {
        let (_expected, bump) = user_position_pda(&ctx.vault_key, &ctx.depositor, &ctx.program_id);
        ctx.user_position.bump = bump;
        ctx.user_position.vault = ctx.vault_key;
        ctx.user_position.owner = ctx.depositor;
    }
    ctx.user_position.shares = position_shares;
    ctx.vault.total_shares = total_shares;
    Ok(minted)
}

} // verus!
