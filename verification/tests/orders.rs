use backend::markets::{PerpMarket, PositionSide};
use backend::orders::{
    close_order_amount, is_open_position, order_error_message, normalize_open_amount, signed_open_amount, OrderError,
};

#[test]
fn amount_below_minimum_is_refused() {
    assert_eq!(
        normalize_open_amount(1_000_000, 10_000_000, 1_000_000),
        Err(OrderError::BelowMinOrderSize { requested: 1_000_000, min: 10_000_000 })
    );
}

#[test]
fn amount_is_rounded_up_to_the_step() {
    assert_eq!(normalize_open_amount(10_000_001, 10_000_000, 10_000_000), Ok(20_000_000));
    assert_eq!(normalize_open_amount(25_000_000, 10_000_000, 10_000_000), Ok(30_000_000));
    assert_eq!(normalize_open_amount(30_000_000, 10_000_000, 10_000_000), Ok(30_000_000));
}

#[test]
fn zero_step_counts_as_one() {
    assert_eq!(normalize_open_amount(12_345, 0, 0), Ok(12_345));
    assert_eq!(normalize_open_amount(0, 0, 0), Ok(0));
}

#[test]
fn rounding_saturates_at_the_top() {
    assert_eq!(normalize_open_amount(u64::MAX - 1, 0, 10), Ok(u64::MAX));
    assert_eq!(normalize_open_amount(u64::MAX, 0, 10), Ok(u64::MAX));
}

#[test]
fn normalizing_twice_changes_nothing() {
    let once = normalize_open_amount(10_000_001, 10_000_000, 7_000_000).unwrap();
    assert_eq!(once, 14_000_000);
    assert_eq!(normalize_open_amount(once, 10_000_000, 7_000_000), Ok(once));
}

#[test]
fn open_amount_is_signed_by_side() {
    assert_eq!(signed_open_amount(10_000_000, PositionSide::Long), Ok(10_000_000));
    assert_eq!(signed_open_amount(10_000_000, PositionSide::Short), Ok(-10_000_000));
    assert_eq!(signed_open_amount(i64::MAX as u64, PositionSide::Short), Ok(-i64::MAX));
}

#[test]
fn open_amount_beyond_i64_is_refused() {
    assert_eq!(signed_open_amount(i64::MAX as u64 + 1, PositionSide::Long), Err(OrderError::AmountTooLarge));
    assert_eq!(signed_open_amount(u64::MAX, PositionSide::Short), Err(OrderError::AmountTooLarge));
}

#[test]
fn close_order_negates_the_position() {
    assert_eq!(close_order_amount(PerpMarket::SOL, Some(5_000)), Ok(-5_000));
    assert_eq!(close_order_amount(PerpMarket::SOL, Some(-7_000)), Ok(7_000));
    assert_eq!(close_order_amount(PerpMarket::BTC, Some(i64::MAX)), Ok(-i64::MAX));
}

#[test]
fn close_order_errors() {
    assert_eq!(
        close_order_amount(PerpMarket::ETH, None),
        Err(OrderError::NoPosition { market: PerpMarket::ETH })
    );
    assert_eq!(close_order_amount(PerpMarket::SOL, Some(0)), Err(OrderError::AlreadyFlat));
    assert_eq!(close_order_amount(PerpMarket::SOL, Some(i64::MIN)), Err(OrderError::PositionTooLarge));
}

#[test]
fn closing_an_opened_position_flattens_it() {
    for side in [PositionSide::Long, PositionSide::Short] {
        let opened = signed_open_amount(10_000_000, side).unwrap();
        let closing = close_order_amount(PerpMarket::SOL, Some(opened)).unwrap();
        assert_eq!(opened + closing, 0);
    }
}

#[test]
fn open_positions_have_a_nonzero_base() {
    assert!(is_open_position(Some(3)));
    assert!(is_open_position(Some(-3)));
    assert!(!is_open_position(Some(0)));
    assert!(!is_open_position(None));
}

#[test]
fn order_error_messages() {
    assert_eq!(
        order_error_message(&OrderError::BelowMinOrderSize { requested: 1_000_000, min: 10_000_000 }),
        "requested amount is lower than min_order_size, 1000000 < 10000000"
    );
    assert_eq!(
        order_error_message(&OrderError::BelowMinOrderSize { requested: 0, min: u64::MAX }),
        "requested amount is lower than min_order_size, 0 < 18446744073709551615"
    );
    assert_eq!(order_error_message(&OrderError::AmountTooLarge), "base_asset_amount too large");
    assert_eq!(
        order_error_message(&OrderError::NoPosition { market: PerpMarket::SOL }),
        "no perp position for market SOL"
    );
    assert_eq!(order_error_message(&OrderError::AlreadyFlat), "position is already flat");
    assert_eq!(order_error_message(&OrderError::PositionTooLarge), "position size too large");
}
