use axis_auction::errors::AxisAuctionError;
use axis_auction::instructions::submit_bid::minimum_next_bid;

#[test]
fn minimum_next_bid_rounds_up() {
    assert_eq!(minimum_next_bid(101, 100).unwrap(), 103);
    assert_eq!(minimum_next_bid(1_000_000, 7_500).unwrap(), 1_750_000);
}

#[test]
fn minimum_next_bid_is_zero_without_bids() {
    assert_eq!(minimum_next_bid(0, 10_000).unwrap(), 0);
}

#[test]
fn minimum_next_bid_without_improvement_is_the_highest_bid() {
    assert_eq!(minimum_next_bid(12_345, 0).unwrap(), 12_345);
}

#[test]
fn minimum_next_bid_overflow_is_reported() {
    assert_eq!(
        minimum_next_bid(u64::MAX, 1).unwrap_err(),
        AxisAuctionError::MathOverflow
    );
    assert_eq!(minimum_next_bid(u64::MAX, 0).unwrap(), u64::MAX);
}
