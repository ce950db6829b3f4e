use vstd::prelude::*;

use crate::errors::UrbaniumError;
use crate::state::Address;

verus! {

/// One price observation as published by the feed.
#[derive(Clone, Copy, Debug, PartialEq, Eq, Structural)]
pub struct OraclePrice {
    pub price: i64,
    pub conf: u64,
    pub expo: i32,
    pub publish_time: i64,
}

pub open spec fn abs(x: int) -> int {
    if x < 0 {
        -x
    } else {
        x
    }
}

/// An observation published at `publish_time` counts as current at `now` when the two
/// lie at most `max_age` seconds apart, in either direction.
pub open spec fn is_fresh(publish_time: i64, now: i64, max_age: u64) -> bool {
    abs(publish_time - now) <= max_age
}

/// Confidence of an observation in basis points of its absolute price.
pub open spec fn confidence_bps(price: OraclePrice) -> int {
    price.conf * 10000 / abs(price.price as int)
}

/// Outcome of reading the feed: `decoded` is the feed's latest observation, or `None`
/// where its contents could not be decoded.
pub open spec fn price_read(
    oracle_program: Address,
    feed_owner: Address,
    decoded: Option<OraclePrice>,
    now: i64,
    max_staleness_seconds: u64,
) -> Result<OraclePrice, UrbaniumError> {
    if feed_owner.bytes@ != oracle_program.bytes@ {
        Err(UrbaniumError::InvalidOracleOwner)
    } else {
        match decoded {
            None => Err(UrbaniumError::OraclePriceUnavailable),
            Some(p) => if is_fresh(p.publish_time, now, max_staleness_seconds) {
                Ok(p)
            } else {
                Err(UrbaniumError::OracleStale)
            },
        }
    }
}

/// Outcome of the confidence bound on an observation.
pub open spec fn confidence_check(price: OraclePrice, max_confidence_bps: u16) -> Result<(), UrbaniumError> {
    if price.price == 0 {
        Err(UrbaniumError::OraclePriceUnavailable)
    } else if confidence_bps(price) > max_confidence_bps {
        Err(UrbaniumError::OracleConfidenceTooHigh)
    } else {
        Ok(())
    }
}

/// Whether `publish_time` lies within `max_age` seconds of `now`.
pub fn within_staleness(publish_time: i64, now: i64, max_age: u64) -> (r: bool)
    ensures
        r == is_fresh(publish_time, now, max_age),
{
    let diff: i128 = publish_time as i128 - now as i128;
    let distance: i128 = if diff < 0 { -diff } else { diff };
    distance <= max_age as i128
}

/// Checks that the feed is owned by the configured oracle program and that its latest
/// observation is recent enough.
pub fn read_pyth_price(
    oracle_program: &Address,
    feed_owner: &Address,
    decoded: Option<OraclePrice>,
    now: i64,
    max_staleness_seconds: u64,
) -> (r: Result<OraclePrice, UrbaniumError>)
    ensures
        r == price_read(*oracle_program, *feed_owner, decoded, now, max_staleness_seconds),
{
    if feed_owner != oracle_program {
        return Err(UrbaniumError::InvalidOracleOwner);
    }
    match decoded {
        None => Err(UrbaniumError::OraclePriceUnavailable),
        Some(p) => {
            if within_staleness(p.publish_time, now, max_staleness_seconds) {
                Ok(p)
            } else {
                Err(UrbaniumError::OracleStale)
            }
        },
    }
}

/// Rejects an observation whose confidence interval, relative to its price, exceeds
/// `max_confidence_bps`.
pub fn enforce_confidence_bps(price: OraclePrice, max_confidence_bps: u16) -> (r: Result<(), UrbaniumError>)
    ensures
        r == confidence_check(price, max_confidence_bps),
{
    let signed: i128 = price.price as i128;
    let abs_price: i128 = if signed < 0 { -signed } else { signed };
    if abs_price == 0 {
        return Err(UrbaniumError::OraclePriceUnavailable);
    }
    let conf: i128 = price.conf as i128;
    let scaled = match conf.checked_mul(10_000) {
        Some(v) => v,
        None => return Err(UrbaniumError::ArithmeticOverflow),
    };
    let bps = match scaled.checked_div(abs_price) {
        Some(v) => v,
        None => return Err(UrbaniumError::ArithmeticOverflow),
    };
    if bps > max_confidence_bps as i128 {
        return Err(UrbaniumError::OracleConfidenceTooHigh);
    }
    Ok(())
}

} // verus!
