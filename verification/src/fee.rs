//! The platform fee: a fixed percentage of the gross amount, rounded down.

use vstd::prelude::*;
use crate::error::ErrorCode;

verus! {

/// The platform's cut of every gross amount, in percent.
pub const FEE_RATE_PERCENT: u64 = 5;

/// The fee on `gross`: `floor(gross * FEE_RATE_PERCENT / 100)`.
pub open spec fn spec_fee(gross: nat) -> nat {
    gross * FEE_RATE_PERCENT as nat / 100
}

/// What `buy_total` returns.
pub open spec fn spec_buy_total(cost: u64) -> Result<u64, ErrorCode> {
    if cost + spec_fee(cost as nat) <= u64::MAX {
        Ok((cost + spec_fee(cost as nat)) as u64)
    } else {
        Err(ErrorCode::ArithmeticOverflow)
    }
}

/// The fee never exceeds the amount it is taken from.
pub proof fn lemma_fee_bounded(gross: nat)
    ensures
        spec_fee(gross) <= gross,
{
}

/// The fee owed on `gross`. The product is formed in 128 bits, so every
/// `gross` has a fee.
pub fn fee_for(gross: u64) -> (fee: u64)
    ensures
        fee == spec_fee(gross as nat),
        fee <= gross,
{
    let scaled: u128 = gross as u128 * FEE_RATE_PERCENT as u128;
    (scaled / 100) as u64
}

/// What a buyer pays for units that cost `cost`: the cost and the fee on it.
pub fn buy_total(cost: u64) -> (r: Result<u64, ErrorCode>)
    ensures
        r == spec_buy_total(cost),
{
    match cost.checked_add(fee_for(cost)) {
        Some(total) => Ok(total),
        None => Err(ErrorCode::ArithmeticOverflow),
    }
}

/// What a seller receives for units that refund `refund`: the refund less
/// the fee on it.
pub fn sell_net(refund: u64) -> (net: u64)
    ensures
        net == refund - spec_fee(refund as nat),
{
    refund - fee_for(refund)
}

} // verus!
