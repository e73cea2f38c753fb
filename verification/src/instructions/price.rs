//! Oracle price checks shared by bet proposal and settlement.

use vstd::prelude::*;
use crate::clock::{Clock, spec_saturating_sub_i64};
use crate::error::RogueTraderError;
use crate::pyth::{PriceFeedMessage, PriceUpdateV2, le_i32_at, le_i64_at, le_u64_at, message_offset};

verus! {

/// Max price staleness in seconds.
pub const MAX_PRICE_AGE: u64 = 60;
/// Max confidence interval as basis points of the price (2%).
pub const MAX_CONF_BPS: u64 = 200;

/// Price field of the price message in account data.
pub open spec fn data_price(d: Seq<u8>) -> i64 {
    le_i64_at(d, message_offset(d) + 32)
}

/// Confidence field of the price message in account data.
pub open spec fn data_conf(d: Seq<u8>) -> u64 {
    le_u64_at(d, message_offset(d) + 40)
}

/// Exponent field of the price message in account data.
pub open spec fn data_exponent(d: Seq<u8>) -> i32 {
    le_i32_at(d, message_offset(d) + 48)
}

/// Publish time of the price message in account data.
pub open spec fn data_publish_time(d: Seq<u8>) -> i64 {
    le_i64_at(d, message_offset(d) + 52)
}

/// Feed id of the price message in account data.
pub open spec fn data_feed_id(d: Seq<u8>) -> Seq<u8> {
    d.subrange(message_offset(d), message_offset(d) + 32)
}

/// The price is older than `MAX_PRICE_AGE` at `now`, or from the future.
pub open spec fn stale_at(publish_time: i64, now: i64) -> bool {
    let age = spec_saturating_sub_i64(now, publish_time);
    age < 0 || age > MAX_PRICE_AGE
}

/// The confidence interval exceeds 2% of the (positive) price.
pub open spec fn conf_too_wide(conf: u64, price: i64) -> bool {
    (conf as int) * 10_000 / (price as int) > MAX_CONF_BPS as int
}

/// The first check a price message fails: staleness, a non-positive price,
/// a confidence interval wider than 2%.
pub open spec fn price_message_error(publish_time: i64, price: i64, conf: u64, now: i64) -> Option<
    RogueTraderError,
> {
    if stale_at(publish_time, now) {
        Some(RogueTraderError::PythPriceTooStale)
    } else if price <= 0 {
        Some(RogueTraderError::InvalidPrice)
    } else if conf_too_wide(conf, price) {
        Some(RogueTraderError::PythConfidenceTooWide)
    } else {
        None
    }
}

/// Accept a price no older than 60 seconds, positive, with a confidence
/// interval of at most 2% of the price.
pub fn checked_price(update: &PriceUpdateV2, clock: &Clock) -> (r: Result<
    PriceFeedMessage,
    RogueTraderError,
>)
    ensures
        match price_message_error(
            update.price_message.publish_time,
            update.price_message.price,
            update.price_message.conf,
            clock.unix_timestamp,
        ) {
            Some(e) => r == Err::<PriceFeedMessage, RogueTraderError>(e),
            None => r == Ok::<PriceFeedMessage, RogueTraderError>(update.price_message),
        },
{
    let msg = update.get_price_no_older_than(clock, MAX_PRICE_AGE)?;
    if msg.price <= 0 {
        return Err(RogueTraderError::InvalidPrice);
    }
    let abs_price = msg.price as u64;
    let conf_bps: u128 = (msg.conf as u128) * 10_000 / (abs_price as u128);
    if conf_bps > MAX_CONF_BPS as u128 {
        return Err(RogueTraderError::PythConfidenceTooWide);
    }
    Ok(*msg)
}

} // verus!
