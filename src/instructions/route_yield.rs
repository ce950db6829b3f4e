use vstd::prelude::*;

use crate::errors::UrbaniumError;
use crate::oracle::{is_fresh, confidence_check, enforce_confidence_bps, price_read, read_pyth_price, OraclePrice};
use crate::router::{destination_for, select_destination, Destination};
use crate::state::{Address, ReserveBalances, Vault};

verus! {

/// What routing reads: the vault, the owner of its oracle feed account, the feed's latest
/// observation (`None` where the feed could not be decoded), the current time and the
/// balances of the vault's reserves.
#[derive(Clone, Copy, Debug)]
pub struct RouteYield {
    pub vault: Vault,
    pub feed_owner: Address,
    pub observation: Option<OraclePrice>,
    pub now: i64,
    pub reserves: ReserveBalances,
}

/// A transfer of `amount` from the primary reserve to `destination`.
#[derive(Clone, Copy, Debug, PartialEq, Eq, Structural)]
pub struct Route {
    pub destination: Destination,
    pub amount: u64,
}

/// The transfer that routing `amount` asks for, or the error that rejects it.
pub open spec fn route_outcome(ctx: RouteYield, amount: u64) -> Result<Route, UrbaniumError> {
    if amount == 0 {
        Err(UrbaniumError::ZeroAmount)
    } else {
        match price_read(
            ctx.vault.oracle_program,
            ctx.feed_owner,
            ctx.observation,
            ctx.now,
            ctx.vault.max_staleness_seconds,
        ) {
            Err(e) => Err(e),
            Ok(p) => match confidence_check(p, ctx.vault.max_confidence_bps) {
                Err(e) => Err(e),
                Ok(_) => if p.expo != ctx.vault.oracle_expo {
                    Err(UrbaniumError::OracleExponentMismatch)
                } else if ctx.reserves.primary < amount {
                    Err(UrbaniumError::InsufficientLiquidity)
                } else {
                    Ok(Route { destination: destination_for(p.price, ctx.vault.route_threshold_price), amount })
                },
            },
        }
    }
}

/// Validates the oracle observation and decides where `amount` of the primary reserve goes.
/// Routing changes no share accounting; the caller issues the transfer.
pub fn handler(ctx: &RouteYield, amount: u64) -> (r: Result<Route, UrbaniumError>)
    ensures
        r == route_outcome(*ctx, amount),
{
    if amount == 0 {
        return Err(UrbaniumError::ZeroAmount);
    }
    let price = match read_pyth_price(
        &ctx.vault.oracle_program,
        &ctx.feed_owner,
        ctx.observation,
        ctx.now,
        ctx.vault.max_staleness_seconds,
    ) {
        Ok(p) => p,
        Err(e) => return Err(e),
    };
    match enforce_confidence_bps(price, ctx.vault.max_confidence_bps) {
        Ok(()) => {},
        Err(e) => return Err(e),
    }
    if price.expo != ctx.vault.oracle_expo {
        return Err(UrbaniumError::OracleExponentMismatch);
    }
    let destination = select_destination(price.price, ctx.vault.route_threshold_price);
    if ctx.reserves.primary < amount {
        return Err(UrbaniumError::InsufficientLiquidity);
    }
    Ok(Route { destination, amount })
}

/// Routing rejects an observation outside the staleness bound with `OracleStale`, whatever
/// its confidence, and a current observation with a zero price with
/// `OraclePriceUnavailable`. A zero price that is also stale is reported as stale, since
/// staleness is checked first.
pub proof fn lemma_oracle_rejections(ctx: RouteYield, amount: u64, observed: OraclePrice)
    requires
        amount > 0,
        ctx.feed_owner.bytes@ == ctx.vault.oracle_program.bytes@,
        ctx.observation == Some(observed),
    ensures
        !is_fresh(observed.publish_time, ctx.now, ctx.vault.max_staleness_seconds) ==> route_outcome(
            ctx,
            amount,
        ) == Err::<Route, UrbaniumError>(UrbaniumError::OracleStale),
        is_fresh(observed.publish_time, ctx.now, ctx.vault.max_staleness_seconds) && observed.price
            == 0 ==> route_outcome(ctx, amount) == Err::<Route, UrbaniumError>(
            UrbaniumError::OraclePriceUnavailable,
        ),
        observed.price == 0 ==> confidence_check(observed, ctx.vault.max_confidence_bps) == Err::<
            (),
            UrbaniumError,
        >(UrbaniumError::OraclePriceUnavailable),
{
}

} // verus!
