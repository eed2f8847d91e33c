//! Create a constrained mock DTF settlement/correction market.

use vstd::prelude::*;

use crate::constants::{BPS_SCALE, MARKET_KIND_BATCH_CLEARING_RIGHT};
use crate::errors::AxisAuctionError;
use crate::events::MarketCreated;
use crate::key::AccountKey;
use crate::state::{CreatorRevenueVault, MockDtfMarket};

verus! {

/// The accounts of a market creation: the signing creator and the addresses
/// (and bump seeds) of the market and of its creator revenue vault.
#[derive(Debug, Clone, Copy, PartialEq, Eq)]
pub struct CreateMockMarket {
    pub creator: AccountKey,
    pub market: AccountKey,
    pub market_bump: u8,
    pub creator_revenue_vault: AccountKey,
    pub creator_revenue_vault_bump: u8,
}

/// The first market parameter that is refused, if any.
pub open spec fn create_market_rejection(
    market_kind: u8,
    batch_size: u64,
    max_nav_staleness_slots: u64,
    min_improvement_bps: u16,
) -> Option<AxisAuctionError> {
    if market_kind != MARKET_KIND_BATCH_CLEARING_RIGHT {
        Some(AxisAuctionError::InvalidMarketKind)
    } else if batch_size == 0 {
        Some(AxisAuctionError::InvalidBatchSize)
    } else if max_nav_staleness_slots == 0 {
        Some(AxisAuctionError::InvalidMaxNavStaleness)
    } else if min_improvement_bps > BPS_SCALE {
        Some(AxisAuctionError::InvalidMinImprovementBps)
    } else {
        None
    }
}

/// Create a market whose NAV was last updated at `current_slot`, with no rounds
/// yet, and its record-only creator vault with nothing recorded yet.
#[allow(clippy::too_many_arguments)]
pub fn create_mock_market(
    ctx: &CreateMockMarket,
    current_slot: u64,
    market_id: u64,
    market_kind: u8,
    usdc_mint: AccountKey,
    batch_size: u64,
    pre_nav: u64,
    target_nav: u64,
    mock_pool_price: u64,
    expected_cost_without_auction: u64,
    max_nav_staleness_slots: u64,
    min_settlement_out: u64,
    min_improvement_bps: u16,
) -> (result: Result<(MockDtfMarket, CreatorRevenueVault, MarketCreated), AxisAuctionError>)
    ensures
        match create_market_rejection(
            market_kind,
            batch_size,
            max_nav_staleness_slots,
            min_improvement_bps,
        ) {
            Some(e) => result == Err::<
                (MockDtfMarket, CreatorRevenueVault, MarketCreated),
                AxisAuctionError,
            >(e),
            None => result == Ok::<
                (MockDtfMarket, CreatorRevenueVault, MarketCreated),
                AxisAuctionError,
            >(
                (
                    MockDtfMarket {
                        market_id,
                        market_kind,
                        creator: ctx.creator,
                        creator_revenue_vault: ctx.creator_revenue_vault,
                        usdc_mint,
                        batch_size,
                        pre_nav,
                        target_nav,
                        mock_pool_price,
                        expected_cost_without_auction,
                        nav_last_update_slot: current_slot,
                        max_nav_staleness_slots,
                        min_settlement_out,
                        min_improvement_bps,
                        round_counter: 0,
                        bump: ctx.market_bump,
                    },
                    CreatorRevenueVault {
                        authority: ctx.creator,
                        usdc_mint,
                        token_account: AccountKey::zero(),
                        total_in: 0,
                        bump: ctx.creator_revenue_vault_bump,
                    },
                    MarketCreated {
                        market: ctx.market,
                        market_id,
                        market_kind,
                        creator: ctx.creator,
                        creator_revenue_vault: ctx.creator_revenue_vault,
                        usdc_mint,
                        batch_size,
                        pre_nav,
                        target_nav,
                        mock_pool_price,
                        expected_cost_without_auction,
                        nav_last_update_slot: current_slot,
                        max_nav_staleness_slots,
                        min_settlement_out,
                        min_improvement_bps,
                    },
                ),
            ),
        },
{
    if market_kind != MARKET_KIND_BATCH_CLEARING_RIGHT {
        return Err(AxisAuctionError::InvalidMarketKind);
    }
    if batch_size == 0 {
        return Err(AxisAuctionError::InvalidBatchSize);
    }
    if max_nav_staleness_slots == 0 {
        return Err(AxisAuctionError::InvalidMaxNavStaleness);
    }
    if (min_improvement_bps as u128) > BPS_SCALE {
        return Err(AxisAuctionError::InvalidMinImprovementBps);
    }
    let nav_last_update_slot = current_slot;
    let creator_revenue_vault = CreatorRevenueVault {
        authority: ctx.creator,
        usdc_mint,
        // Record-only: no SPL token account is created.
        token_account: AccountKey::default_key(),
        total_in: 0,
        bump: ctx.creator_revenue_vault_bump,
    };
    // The market persists its own explicit constraints; the configuration's
    // minimums are defaults for clients, not overrides of market inputs.
    let market = MockDtfMarket {
        market_id,
        market_kind,
        creator: ctx.creator,
        creator_revenue_vault: ctx.creator_revenue_vault,
        usdc_mint,
        batch_size,
        pre_nav,
        target_nav,
        mock_pool_price,
        expected_cost_without_auction,
        nav_last_update_slot,
        max_nav_staleness_slots,
        min_settlement_out,
        min_improvement_bps,
        round_counter: 0,
        bump: ctx.market_bump,
    };
    let event = MarketCreated {
        market: ctx.market,
        market_id,
        market_kind,
        creator: market.creator,
        creator_revenue_vault: market.creator_revenue_vault,
        usdc_mint,
        batch_size,
        pre_nav,
        target_nav,
        mock_pool_price,
        expected_cost_without_auction,
        nav_last_update_slot,
        max_nav_staleness_slots,
        min_settlement_out,
        min_improvement_bps,
    };
    Ok((market, creator_revenue_vault, event))
}

} // verus!
