//! The lifecycle steps of an auction.

pub mod initialize_config;
pub mod create_mock_market;
pub mod open_auction_round;
pub mod submit_bid;
pub mod close_auction_select_winner;
pub mod execute_mock_settlement;
pub mod claim_or_record_auction_payment;
