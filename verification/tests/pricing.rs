use sol_proj::{buy_cost, sell_refund, ErrorCode, SLOPE};

#[test]
fn slope_is_one_million_lamports() {
    assert_eq!(SLOPE, 1_000_000);
}

#[test]
fn buy_ten_from_empty_supply() {
    assert_eq!(buy_cost(0, 10), Ok(50_000_000));
}

#[test]
fn buy_one_from_empty_supply_costs_half_the_slope() {
    assert_eq!(buy_cost(0, 1), Ok(500_000));
}

#[test]
fn buy_above_existing_supply() {
    // 1_000_000 * (15^2 - 10^2) / 2
    assert_eq!(buy_cost(10, 5), Ok(62_500_000));
    assert_eq!(buy_cost(7, 1), Ok(7_500_000));
}

#[test]
fn buy_nothing_costs_nothing() {
    assert_eq!(buy_cost(0, 0), Ok(0));
    assert_eq!(buy_cost(u64::MAX, 0), Ok(0));
}

#[test]
fn sell_ten_from_supply_of_ten() {
    assert_eq!(sell_refund(10, 10), Ok(50_000_000));
}

#[test]
fn sell_part_of_the_supply() {
    // 1_000_000 * (15^2 - 10^2) / 2
    assert_eq!(sell_refund(15, 5), Ok(62_500_000));
}

#[test]
fn sell_nothing_refunds_nothing() {
    assert_eq!(sell_refund(10, 0), Ok(0));
    assert_eq!(sell_refund(0, 0), Ok(0));
}

#[test]
fn sell_more_than_supply_is_refused() {
    assert_eq!(sell_refund(10, 11), Err(ErrorCode::InsufficientSupply));
    assert_eq!(sell_refund(0, 1), Err(ErrorCode::InsufficientSupply));
    assert_eq!(sell_refund(u64::MAX - 1, u64::MAX), Err(ErrorCode::InsufficientSupply));
}

#[test]
fn buy_is_symmetric_with_sell() {
    let cases = [(0u64, 1u64), (0, 10), (3, 4), (10, 5), (1_000, 999), (6_000_000, 1)];
    for (supply, quantity) in cases {
        assert_eq!(buy_cost(supply, quantity), sell_refund(supply + quantity, quantity));
    }
}

#[test]
fn buy_is_additive() {
    assert_eq!(buy_cost(0, 3), Ok(4_500_000));
    assert_eq!(buy_cost(3, 4), Ok(20_000_000));
    assert_eq!(buy_cost(0, 7), Ok(24_500_000));
    for (supply, first, second) in [(0u64, 1u64, 1u64), (5, 10, 20), (100, 1, 1_000)] {
        let whole = buy_cost(supply, first + second).unwrap();
        let head = buy_cost(supply, first).unwrap();
        let tail = buy_cost(supply + first, second).unwrap();
        assert_eq!(whole, head + tail);
    }
}

#[test]
fn largest_purchase_from_empty_supply() {
    assert_eq!(buy_cost(0, 6_074_000), Ok(18_446_738_000_000_000_000));
    assert_eq!(buy_cost(0, 6_074_001), Err(ErrorCode::ArithmeticOverflow));
}

#[test]
fn cost_of_one_unit_at_a_high_supply() {
    assert_eq!(buy_cost(6_074_000, 1), Ok(6_074_000_500_000));
}

#[test]
fn square_of_new_supply_beyond_128_bits_is_an_overflow() {
    assert_eq!(buy_cost(u64::MAX, 1), Err(ErrorCode::ArithmeticOverflow));
    assert_eq!(buy_cost(u64::MAX, u64::MAX), Err(ErrorCode::ArithmeticOverflow));
    assert_eq!(buy_cost(1, u64::MAX), Err(ErrorCode::ArithmeticOverflow));
}

#[test]
fn product_with_the_slope_beyond_128_bits_is_an_overflow() {
    assert_eq!(buy_cost(0, u64::MAX), Err(ErrorCode::ArithmeticOverflow));
    assert_eq!(sell_refund(u64::MAX, u64::MAX), Err(ErrorCode::ArithmeticOverflow));
}

#[test]
fn refund_beyond_64_bits_is_an_overflow() {
    assert_eq!(sell_refund(6_074_001, 6_074_001), Err(ErrorCode::ArithmeticOverflow));
    assert_eq!(sell_refund(u64::MAX, 1), Err(ErrorCode::ArithmeticOverflow));
    assert_eq!(sell_refund(6_074_001, 1), Ok(6_074_000_500_000));
}

#[test]
fn cost_rises_with_supply_and_quantity() {
    assert_eq!(buy_cost(0, 2), Ok(2_000_000));
    assert_eq!(buy_cost(1, 2), Ok(4_000_000));
    assert_eq!(buy_cost(1, 3), Ok(7_500_000));
    let mut last = 0;
    for supply in 0..50u64 {
        let cost = buy_cost(supply, 3).unwrap();
        assert!(cost > last);
        last = cost;
    }
}
