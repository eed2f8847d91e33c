//! Persistent account data of the auction.
//!
//! These types model auction, settlement-right, and revenue accounting only.
//! There is no reserve account: reserve balances, NAV, mint/redeem fees, and
//! auction revenue are distinct concerns.

use vstd::prelude::*;

use crate::key::AccountKey;

verus! {

/// Global auction configuration.
#[derive(Debug, Clone, Copy, PartialEq, Eq)]
pub struct AuctionConfig {
    pub authority: AccountKey,
    pub protocol_revenue_vault: AccountKey,
    pub protocol_fee_bps: u16,
    pub default_auction_duration_slots: u64,
    pub min_bid_amount: u64,
    pub min_improvement_bps: u16,
    pub bump: u8,
}

/// A constrained mock DTF settlement/correction market.
#[derive(Debug, Clone, Copy, PartialEq, Eq)]
pub struct MockDtfMarket {
    pub market_id: u64,
    pub market_kind: u8,
    pub creator: AccountKey,
    pub creator_revenue_vault: AccountKey,
    pub usdc_mint: AccountKey,
    pub batch_size: u64,
    pub pre_nav: u64,
    pub target_nav: u64,
    pub mock_pool_price: u64,
    pub expected_cost_without_auction: u64,
    pub nav_last_update_slot: u64,
    pub max_nav_staleness_slots: u64,
    pub min_settlement_out: u64,
    pub min_improvement_bps: u16,
    pub round_counter: u64,
    pub bump: u8,
}

/// A single auction for a settlement/correction right.
#[derive(Debug, Clone, Copy, PartialEq, Eq)]
pub struct AuctionRound {
    pub market: AccountKey,
    pub round_index: u64,
    /// 0 = Open, 1 = Closed, 2 = Settled, 3 = Expired, 4 = Cancelled.
    pub status: u8,
    pub open_slot: u64,
    pub close_after_slot: u64,
    pub highest_bid: u64,
    pub highest_bidder: AccountKey,
    pub bid_count: u32,
    pub nav_snapshot: u64,
    pub nav_snapshot_slot: u64,
    pub payment_recorded: bool,
    pub bump: u8,
}

impl AuctionRound {
    /// Round status: bids are accepted.
    pub const STATUS_OPEN: u8 = 0;

    /// Round status: bidding is over and a winner is authorized.
    pub const STATUS_CLOSED: u8 = 1;

    /// Round status: the winner's settlement has been executed.
    pub const STATUS_SETTLED: u8 = 2;

    /// Round status: the round expired.
    pub const STATUS_EXPIRED: u8 = 3;

    /// Round status: the round was cancelled.
    pub const STATUS_CANCELLED: u8 = 4;
}

/// The current bid placed by a bidder for a round.
#[derive(Debug, Clone, Copy, PartialEq, Eq)]
pub struct BidRecord {
    pub round: AccountKey,
    pub bidder: AccountKey,
    pub amount: u64,
    pub slot: u64,
    pub bump: u8,
}

/// The winner-only authority to execute one settlement.
#[derive(Debug, Clone, Copy, PartialEq, Eq)]
pub struct WinnerAuthorization {
    pub round: AccountKey,
    pub market: AccountKey,
    pub winner: AccountKey,
    pub bid_amount: u64,
    pub issued_slot: u64,
    pub consumed: bool,
    pub bump: u8,
}

/// Immutable accounting result of a mock settlement.
#[derive(Debug, Clone, Copy, PartialEq, Eq)]
pub struct SettlementReceipt {
    pub round: AccountKey,
    pub market: AccountKey,
    pub winner: AccountKey,
    pub pre_nav: u64,
    pub target_nav: u64,
    pub mock_pool_price: u64,
    pub batch_size: u64,
    pub expected_cost_without_auction: u64,
    pub starting_gap_value: u64,
    pub settlement_out: u64,
    pub settlement_cost: u64,
    pub winner_bid_amount: u64,
    pub auction_revenue: u64,
    pub gap_closed_value: i64,
    pub gross_cost_reduction: i64,
    pub total_value_recaptured: i64,
    pub protocol_revenue: u64,
    pub creator_revenue: u64,
    pub net_protocol_benefit: i64,
    pub net_creator_benefit: i64,
    pub improvement_bps: i64,
    pub settled_slot: u64,
    pub bump: u8,
}

/// Protocol share of auction payment accounting.
#[derive(Debug, Clone, Copy, PartialEq, Eq)]
pub struct ProtocolRevenueVault {
    pub authority: AccountKey,
    pub usdc_mint: AccountKey,
    pub token_account: AccountKey,
    pub total_in: u64,
    pub bump: u8,
}

/// Market creator's share of auction payment accounting.
#[derive(Debug, Clone, Copy, PartialEq, Eq)]
pub struct CreatorRevenueVault {
    pub authority: AccountKey,
    pub usdc_mint: AccountKey,
    pub token_account: AccountKey,
    pub total_in: u64,
    pub bump: u8,
}

} // verus!
