//! Pricing against the linear curve `price(x) = SLOPE * x`.
//!
//! The cost of moving the supply between two levels is the area under the
//! curve between them. All products are formed in 128 bits and the result is
//! narrowed to 64 bits with a range check.

use vstd::prelude::*;
use crate::error::ErrorCode;

verus! {

/// Price growth per unit of supply, in lamports.
pub const SLOPE: u128 = 1_000_000;

/// The square of the supply level `high` less the square of the level
/// `low`.
pub open spec fn square_gap(low: nat, high: nat) -> int {
    high * high - low * low
}

/// The area under the curve from `0` to `supply`: what the reserve holds
/// when `supply` units are in circulation.
pub open spec fn curve_integral(supply: nat) -> nat {
    (SLOPE * square_gap(0, supply) / 2) as nat
}

/// The cost of raising the supply from `supply` by `quantity`.
pub open spec fn buy_amount(supply: nat, quantity: nat) -> nat {
    (SLOPE * square_gap(supply, supply + quantity) / 2) as nat
}

/// The refund for lowering the supply from `supply` by `quantity`.
pub open spec fn sell_amount(supply: nat, quantity: nat) -> nat
    recommends
        quantity <= supply,
{
    (SLOPE * square_gap((supply - quantity) as nat, supply) / 2) as nat
}

/// What `buy_cost` returns: the cost where it fits 64 bits.
pub open spec fn spec_buy_cost(supply: nat, quantity: nat) -> Result<u64, ErrorCode> {
    if buy_amount(supply, quantity) <= u64::MAX {
        Ok(buy_amount(supply, quantity) as u64)
    } else {
        Err(ErrorCode::ArithmeticOverflow)
    }
}

/// What `sell_refund` returns: the refund where the units exist and it fits
/// 64 bits.
pub open spec fn spec_sell_refund(supply: nat, quantity: nat) -> Result<u64, ErrorCode> {
    if quantity > supply {
        Err(ErrorCode::InsufficientSupply)
    } else if sell_amount(supply, quantity) <= u64::MAX {
        Ok(sell_amount(supply, quantity) as u64)
    } else {
        Err(ErrorCode::ArithmeticOverflow)
    }
}

/// Halves `SLOPE * gap` and narrows the result to 64 bits.
fn scale_and_narrow(gap: u128) -> (r: Result<u64, ErrorCode>)
    ensures
        SLOPE * gap / 2 <= u64::MAX ==> r == Ok::<u64, ErrorCode>((SLOPE * gap / 2) as u64),
        SLOPE * gap / 2 > u64::MAX ==> r == Err::<u64, ErrorCode>(ErrorCode::ArithmeticOverflow),
{
    let scaled: u128 = match SLOPE.checked_mul(gap) {
        Some(scaled) => scaled,
        None => return Err(ErrorCode::ArithmeticOverflow),
    };
    let halved: u128 = scaled / 2;
    if halved > u64::MAX as u128 {
        Err(ErrorCode::ArithmeticOverflow)
    } else {
        Ok(halved as u64)
    }
}

/// Prices a purchase of `quantity` units at `current_supply`.
///
/// Fails with `ArithmeticOverflow` exactly when the cost does not fit 64
/// bits; an intermediate value that leaves 128 bits is such a case. A cost
/// that is returned is exact: nothing was lost in the halving.
pub fn buy_cost(current_supply: u64, quantity: u64) -> (r: Result<u64, ErrorCode>)
    ensures
        r == spec_buy_cost(current_supply as nat, quantity as nat),
        r matches Ok(cost) ==> 2 * cost == SLOPE * square_gap(
            current_supply as nat,
            (current_supply + quantity) as nat,
        ),
{
    proof {
        lemma_halving_exact(current_supply as nat, quantity as nat);
    }
    let current: u128 = current_supply as u128;
    let new_supply: u128 = current + quantity as u128;
    let high: u128 = match new_supply.checked_mul(new_supply) {
        Some(high) => high,
        None => {
            proof {
                lemma_square_overflow(current_supply, quantity);
            }
            return Err(ErrorCode::ArithmeticOverflow);
        },
    };
    assert(current * current <= new_supply * new_supply) by (nonlinear_arith)
        requires
            current <= new_supply,
    ;
    let low: u128 = current * current;
    scale_and_narrow(high - low)
}

/// Prices a redemption of `quantity` units at `current_supply`.
///
/// Fails with `InsufficientSupply` exactly when `quantity` exceeds
/// `current_supply`, and otherwise with `ArithmeticOverflow` exactly when
/// the refund does not fit 64 bits. A refund that is returned is exact:
/// nothing was lost in the halving.
pub fn sell_refund(current_supply: u64, quantity: u64) -> (r: Result<u64, ErrorCode>)
    ensures
        r == spec_sell_refund(current_supply as nat, quantity as nat),
        r matches Ok(refund) ==> 2 * refund == SLOPE * square_gap(
            (current_supply - quantity) as nat,
            current_supply as nat,
        ),
{
    proof {
        lemma_halving_exact(current_supply as nat, quantity as nat);
    }
    if quantity > current_supply {
        return Err(ErrorCode::InsufficientSupply);
    }
    let current: u128 = current_supply as u128;
    let new_supply: u128 = current - quantity as u128;
    assert(current * current <= u128::MAX && new_supply * new_supply <= current * current)
        by (nonlinear_arith)
        requires
            new_supply <= current <= u64::MAX,
    ;
    let high: u128 = current * current;
    let low: u128 = new_supply * new_supply;
    scale_and_narrow(high - low)
}

/// The gap between the squares of two levels that are `quantity` apart,
/// written as a product.
proof fn lemma_square_gap(supply: nat, quantity: nat)
    ensures
        square_gap(supply, supply + quantity) == quantity * (2 * supply + quantity),
        quantity > 0 ==> square_gap(supply, supply + quantity) >= 2 * supply + quantity,
        square_gap(supply, supply + quantity) >= 0,
        square_gap(0, supply + quantity) == square_gap(0, supply) + square_gap(
            supply,
            supply + quantity,
        ),
{
    assert((supply + quantity) * (supply + quantity) - supply * supply == quantity * (2 * supply
        + quantity)) by (nonlinear_arith);
    assert(quantity > 0 ==> quantity * (2 * supply + quantity) >= 2 * supply + quantity)
        by (nonlinear_arith);
    assert(quantity * (2 * supply + quantity) >= 0) by (nonlinear_arith);
}

/// The halving loses nothing: the slope is even, so twice an amount is the
/// slope times the gap between the squares, with no remainder.
pub proof fn lemma_halving_exact(supply: nat, quantity: nat)
    ensures
        2 * curve_integral(supply) == SLOPE * square_gap(0, supply),
        2 * buy_amount(supply, quantity) == SLOPE * square_gap(supply, supply + quantity),
        quantity <= supply ==> 2 * sell_amount(supply, quantity) == SLOPE * square_gap(
            (supply - quantity) as nat,
            supply,
        ),
{
    lemma_square_gap(0, supply);
    lemma_square_gap(supply, quantity);
    if quantity <= supply {
        lemma_square_gap((supply - quantity) as nat, quantity);
    }
}

/// The reserve stays fully backed: a purchase costs exactly what the area
/// under the curve grows by, and a sale refunds exactly what it shrinks by.
pub proof fn lemma_reserve_backed(supply: nat, quantity: nat)
    ensures
        curve_integral(supply + quantity) == curve_integral(supply) + buy_amount(supply, quantity),
        quantity <= supply ==> curve_integral((supply - quantity) as nat) + sell_amount(
            supply,
            quantity,
        ) == curve_integral(supply),
{
    lemma_square_gap(0, supply);
    lemma_square_gap(supply, quantity);
    if quantity <= supply {
        let low = (supply - quantity) as nat;
        lemma_square_gap(0, low);
        lemma_square_gap(low, quantity);
    }
}

/// Buying `quantity` units at `supply` costs what selling them again at
/// `supply + quantity` refunds.
pub proof fn lemma_buy_sell_symmetric(supply: nat, quantity: nat)
    ensures
        buy_amount(supply, quantity) == sell_amount(supply + quantity, quantity),
        spec_buy_cost(supply, quantity) == spec_sell_refund(supply + quantity, quantity),
{
}

/// Buying in two steps costs what buying in one step costs, and where the
/// one step is priced, so are the two.
pub proof fn lemma_buy_additive(supply: nat, first: nat, second: nat)
    ensures
        buy_amount(supply, first + second) == buy_amount(supply, first) + buy_amount(
            supply + first,
            second,
        ),
        spec_buy_cost(supply, first + second) matches Ok(whole) ==> ({
            &&& spec_buy_cost(supply, first) matches Ok(head)
            &&& spec_buy_cost(supply + first, second) matches Ok(tail)
            &&& whole == head + tail
        }),
{
    lemma_reserve_backed(supply, first);
    lemma_reserve_backed(supply + first, second);
    lemma_reserve_backed(supply, first + second);
}

/// The curve rises: the same quantity costs no less at a higher supply,
/// and a larger quantity costs no less at the same supply.
pub proof fn lemma_buy_monotonic(supply: nat, quantity: nat, higher: nat, larger: nat)
    requires
        supply <= higher,
        quantity <= larger,
    ensures
        buy_amount(supply, quantity) <= buy_amount(higher, quantity),
        buy_amount(supply, quantity) <= buy_amount(supply, larger),
{
    lemma_square_gap(supply, quantity);
    lemma_square_gap(higher, quantity);
    lemma_square_gap(supply, larger);
    assert(quantity * (2 * supply + quantity) <= quantity * (2 * higher + quantity))
        by (nonlinear_arith)
        requires
            supply <= higher,
    ;
    assert(quantity * (2 * supply + quantity) <= larger * (2 * supply + larger))
        by (nonlinear_arith)
        requires
            quantity <= larger,
    ;
}

/// When the square of the new supply leaves 128 bits, the purchase is
/// refused: nothing wraps.
pub proof fn lemma_square_overflow(supply: u64, quantity: u64)
    requires
        (supply + quantity) * (supply + quantity) > u128::MAX,
    ensures
        spec_buy_cost(supply as nat, quantity as nat) == Err::<u64, ErrorCode>(
            ErrorCode::ArithmeticOverflow,
        ),
{
    let new_supply = supply + quantity;
    assert(new_supply > u64::MAX) by (nonlinear_arith)
        requires
            new_supply * new_supply > 0xffff_ffff_ffff_ffff_ffff_ffff_ffff_ffff,
            new_supply >= 0,
    ;
    lemma_square_gap(supply as nat, quantity as nat);
}

/// A purchase of at least one unit whose cost fits 64 bits leaves a supply
/// that fits 64 bits, and costs at least half the slope.
pub proof fn lemma_buy_cost_bounds(supply: nat, quantity: nat)
    requires
        quantity > 0,
    ensures
        buy_amount(supply, quantity) >= SLOPE / 2,
        buy_amount(supply, quantity) <= u64::MAX ==> supply + quantity <= u64::MAX,
{
    lemma_square_gap(supply, quantity);
}

/// A sale of at least one unit refunds at least half the slope.
pub proof fn lemma_sell_refund_bounds(supply: nat, quantity: nat)
    requires
        0 < quantity <= supply,
    ensures
        sell_amount(supply, quantity) >= SLOPE / 2,
{
    lemma_square_gap((supply - quantity) as nat, quantity);
}

} // verus!
