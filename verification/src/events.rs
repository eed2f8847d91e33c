//! Events that the lifecycle steps emit.

use vstd::prelude::*;

use crate::key::AccountKey;

verus! {

#[derive(Debug, Clone, Copy, PartialEq, Eq)]
pub struct ConfigInitialized {
    pub config: AccountKey,
    pub authority: AccountKey,
    pub protocol_revenue_vault: AccountKey,
    pub usdc_mint: AccountKey,
    pub protocol_fee_bps: u16,
    pub default_auction_duration_slots: u64,
    pub min_bid_amount: u64,
    pub min_improvement_bps: u16,
}

#[derive(Debug, Clone, Copy, PartialEq, Eq)]
pub struct MarketCreated {
    pub market: AccountKey,
    pub market_id: u64,
    pub market_kind: u8,
    pub creator: AccountKey,
    pub creator_revenue_vault: AccountKey,
    pub usdc_mint: AccountKey,
    pub batch_size: u64,
    pub pre_nav: u64,
    pub target_nav: u64,
    pub mock_pool_price: u64,
    pub expected_cost_without_auction: u64,
    pub nav_last_update_slot: u64,
    pub max_nav_staleness_slots: u64,
    pub min_settlement_out: u64,
    pub min_improvement_bps: u16,
}

#[derive(Debug, Clone, Copy, PartialEq, Eq)]
pub struct AuctionRoundOpened {
    pub market: AccountKey,
    pub round: AccountKey,
    pub round_index: u64,
    pub open_slot: u64,
    pub close_after_slot: u64,
    pub nav_snapshot: u64,
    pub nav_snapshot_slot: u64,
}

#[derive(Debug, Clone, Copy, PartialEq, Eq)]
pub struct BidSubmitted {
    pub round: AccountKey,
    pub bidder: AccountKey,
    pub amount: u64,
    pub slot: u64,
    pub bid_count: u32,
}

#[derive(Debug, Clone, Copy, PartialEq, Eq)]
pub struct AuctionClosed {
    pub round: AccountKey,
    pub market: AccountKey,
    pub winner: AccountKey,
    pub winning_bid: u64,
    pub close_slot: u64,
}

#[derive(Debug, Clone, Copy, PartialEq, Eq)]
pub struct WinnerAuthorized {
    pub round: AccountKey,
    pub market: AccountKey,
    pub winner: AccountKey,
    pub bid_amount: u64,
    pub issued_slot: u64,
}

#[derive(Debug, Clone, Copy, PartialEq, Eq)]
pub struct MockSettlementExecuted {
    pub receipt: AccountKey,
    pub round: AccountKey,
    pub market: AccountKey,
    pub winner: AccountKey,
    pub pre_nav: u64,
    pub target_nav: u64,
    pub mock_pool_price: u64,
    pub batch_size: u64,
    pub expected_cost_without_auction: u64,
    pub winner_bid_amount: u64,
    pub settlement_out: u64,
    pub settlement_cost: u64,
    pub starting_gap_value: u64,
    pub gap_closed_value: i64,
    pub gross_cost_reduction: i64,
    pub auction_revenue: u64,
    pub total_value_recaptured: i64,
    pub protocol_revenue: u64,
    pub creator_revenue: u64,
    pub net_protocol_benefit: i64,
    pub net_creator_benefit: i64,
    pub improvement_bps: i64,
    pub settled_slot: u64,
}

#[derive(Debug, Clone, Copy, PartialEq, Eq)]
pub struct AuctionPaymentRecorded {
    pub round: AccountKey,
    pub market: AccountKey,
    pub winner: AccountKey,
    pub auction_revenue: u64,
    pub protocol_revenue: u64,
    pub creator_revenue: u64,
    pub protocol_revenue_vault: AccountKey,
    pub creator_revenue_vault: AccountKey,
}

#[derive(Debug, Clone, Copy, PartialEq, Eq)]
pub struct AuctionExpired {
    pub round: AccountKey,
    pub market: AccountKey,
    pub expired_slot: u64,
}

#[derive(Debug, Clone, Copy, PartialEq, Eq)]
pub struct AuctionCancelled {
    pub round: AccountKey,
    pub market: AccountKey,
    pub cancelled_by: AccountKey,
    pub cancelled_slot: u64,
}

} // verus!
