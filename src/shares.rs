use vstd::prelude::*;

use vstd::arithmetic::div_mod::{
    lemma_div_is_ordered, lemma_div_multiples_vanish, lemma_fundamental_div_mod,
    lemma_fundamental_div_mod_converse, lemma_mod_pos_bound,
};

use crate::errors::UrbaniumError;

verus! {

/// Pooled assets across the primary reserve and the two yield reserves.
pub open spec fn pooled_assets(primary: u64, yield_a: u64, yield_b: u64) -> int {
    primary + yield_a + yield_b
}

/// Shares minted for a deposit of `amount` into a pool holding `total_assets`
/// under `total_shares` outstanding shares.
pub open spec fn deposit_shares(amount: int, total_assets: int, total_shares: int) -> Result<u64, UrbaniumError> {
    if total_shares == 0 || total_assets == 0 {
        if amount == 0 || amount > u64::MAX {
            Err(UrbaniumError::ArithmeticOverflow)
        } else {
            Ok(amount as u64)
        }
    } else if amount * total_shares > u128::MAX {
        Err(UrbaniumError::ArithmeticOverflow)
    } else {
        let s = amount * total_shares / total_assets;
        if s == 0 || s > u64::MAX {
            Err(UrbaniumError::ArithmeticOverflow)
        } else {
            Ok(s as u64)
        }
    }
}

/// Assets redeemed for `shares` out of `total_shares` over a pool holding `total_assets`.
pub open spec fn withdraw_assets(shares: int, total_assets: int, total_shares: int) -> Result<u64, UrbaniumError> {
    if total_shares == 0 {
        Err(UrbaniumError::InsufficientLiquidity)
    } else if shares * total_assets > u128::MAX {
        Err(UrbaniumError::ArithmeticOverflow)
    } else {
        let a = shares * total_assets / total_shares;
        if a > u64::MAX {
            Err(UrbaniumError::ArithmeticOverflow)
        } else {
            Ok(a as u64)
        }
    }
}

/// Sums the three reserve balances with a checked addition at each step.
pub fn total_assets(primary: u64, yield_a: u64, yield_b: u64) -> (r: Result<u128, UrbaniumError>)
    ensures
        r == Ok::<u128, UrbaniumError>(pooled_assets(primary, yield_a, yield_b) as u128),
        pooled_assets(primary, yield_a, yield_b) <= u128::MAX,
{
    let first = match (primary as u128).checked_add(yield_a as u128) {
        Some(v) => v,
        None => return Err(UrbaniumError::ArithmeticOverflow),
    };
    match first.checked_add(yield_b as u128) {
        Some(v) => Ok(v),
        None => Err(UrbaniumError::ArithmeticOverflow),
    }
}

/// Shares to mint for a deposit; the first deposit into an empty pool sets a 1:1 rate.
pub fn shares_for_deposit(amount: u64, total_assets: u128, total_shares: u64) -> (r: Result<u64, UrbaniumError>)
    ensures
        r == deposit_shares(amount as int, total_assets as int, total_shares as int),
{
    let shares: u64 = if total_shares == 0 || total_assets == 0 {
        amount
    } else {
        let product = match (amount as u128).checked_mul(total_shares as u128) {
            Some(p) => p,
            None => return Err(UrbaniumError::ArithmeticOverflow),
        };
        let quotient = match product.checked_div(total_assets) {
            Some(q) => q,
            None => return Err(UrbaniumError::ArithmeticOverflow),
        };
        if quotient > u64::MAX as u128 {
            return Err(UrbaniumError::ArithmeticOverflow);
        }
        quotient as u64
    };
    if shares == 0 {
        return Err(UrbaniumError::ArithmeticOverflow);
    }
    Ok(shares)
}

/// Assets owed for redeeming `shares`, rounded down in favour of the pool.
pub fn assets_for_withdraw(shares: u64, total_assets: u128, total_shares: u64) -> (r: Result<u64, UrbaniumError>)
    ensures
        r == withdraw_assets(shares as int, total_assets as int, total_shares as int),
{
    if total_shares == 0 {
        return Err(UrbaniumError::InsufficientLiquidity);
    }
    let product = match (shares as u128).checked_mul(total_assets) {
        Some(p) => p,
        None => return Err(UrbaniumError::ArithmeticOverflow),
    };
    let quotient = match product.checked_div(total_shares as u128) {
        Some(q) => q,
        None => return Err(UrbaniumError::ArithmeticOverflow),
    };
    if quotient > u64::MAX as u128 {
        return Err(UrbaniumError::ArithmeticOverflow);
    }
    Ok(quotient as u64)
}

/// The first deposit into a vault without shares mints exactly the deposited amount.
pub proof fn lemma_first_deposit_one_to_one(amount: u64, total_assets: u128)
    requires
        amount > 0,
    ensures
        deposit_shares(amount as int, total_assets as int, 0) == Ok::<u64, UrbaniumError>(amount),
{
}

/// Redeeming the shares just minted, against the pool that the deposit produced, returns at
/// most the amount deposited: rounding favours the pool. Shares of a pool that holds assets
/// but has no shares outstanding are excluded, as the first depositor there also receives
/// what the pool already held.
pub proof fn lemma_redeem_after_deposit_within_amount(amount: u64, total_assets: u128, total_shares: u64)
    requires
        !(total_shares == 0 && total_assets > 0),
    ensures
        match deposit_shares(amount as int, total_assets as int, total_shares as int) {
            Ok(minted) => match withdraw_assets(
                minted as int,
                total_assets + amount,
                total_shares + minted,
            ) {
                Ok(redeemed) => redeemed <= amount,
                Err(_) => true,
            },
            Err(_) => true,
        },
{
    let a = amount as int;
    let pool = total_assets as int;
    let supply = total_shares as int;
    if let Ok(minted) = deposit_shares(a, pool, supply) {
        let m = minted as int;
        let d = supply + m;
        assert(d > 0);
        if supply == 0 || pool == 0 {
            assert(m == a);
            assert(m * (pool + a) <= a * d) by (nonlinear_arith)
                requires
                    m == a,
                    pool == 0 || supply == 0,
                    supply == 0 ==> pool == 0,
                    pool >= 0,
                    supply >= 0,
                    a >= 0,
                    d == supply + m,
            ;
        } else {
            let p = a * supply;
            lemma_fundamental_div_mod(p, pool);
            lemma_mod_pos_bound(p, pool);
            assert(m == p / pool);
            assert(m * (pool + a) <= a * d) by (nonlinear_arith)
                requires
                    p == pool * m + p % pool,
                    0 <= p % pool,
                    p == a * supply,
                    d == supply + m,
            ;
        }
        lemma_div_is_ordered(m * (pool + a), a * d, d);
        lemma_div_multiples_vanish(a, d);
        assert(a * d == d * a) by (nonlinear_arith);
    }
}

/// Two equal deposits in a row mint the same number of shares, where the vault is either
/// empty of both assets and shares or holds both.
pub proof fn lemma_equal_deposits_mint_equally(amount: u64, total_assets: u128, total_shares: u64)
    requires
        (total_assets == 0) == (total_shares == 0),
    ensures
        match deposit_shares(amount as int, total_assets as int, total_shares as int) {
            Ok(minted) => total_shares + minted <= u64::MAX ==> deposit_shares(
                amount as int,
                total_assets + amount,
                total_shares + minted,
            ) == Ok::<u64, UrbaniumError>(minted),
            Err(_) => true,
        },
{
    let a = amount as int;
    let pool = total_assets as int;
    let supply = total_shares as int;
    if let Ok(minted) = deposit_shares(a, pool, supply) {
        let m = minted as int;
        if supply + m <= u64::MAX {
            assert(a * (supply + m) <= u128::MAX) by (nonlinear_arith)
                requires
                    0 <= a <= u64::MAX,
                    0 <= supply + m <= u64::MAX,
            ;
            if pool == 0 {
                assert(m == a);
                lemma_div_multiples_vanish(a, a);
                assert(a * a == a * (supply + m));
            } else {
                let p = a * supply;
                lemma_fundamental_div_mod(p, pool);
                lemma_mod_pos_bound(p, pool);
                let r = p % pool;
                assert(a * (supply + m) == m * (pool + a) + r) by (nonlinear_arith)
                    requires
                        p == pool * m + r,
                        p == a * supply,
                ;
                lemma_fundamental_div_mod_converse(a * (supply + m), pool + a, m, r);
            }
        }
    }
}

} // verus!
