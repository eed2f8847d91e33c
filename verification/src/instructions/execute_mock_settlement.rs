//! Execute the winner-only mock settlement and persist immutable accounting.

use vstd::prelude::*;

use crate::errors::AxisAuctionError;
use crate::events::MockSettlementExecuted;
use crate::instructions::open_auction_round::nav_is_fresh;
use crate::key::AccountKey;
use crate::math::{
    calculate_economics, economics_spec, EconomicsInput, EconomicsOutput, MathError,
};
use crate::state::{
    AuctionConfig, AuctionRound, MockDtfMarket, SettlementReceipt, WinnerAuthorization,
};

verus! {

/// The accounts of a settlement: the signing winner, the configuration, the
/// market, the round (written), the winner authorization (written) and the
/// receipt being created.
#[derive(Debug, Clone, Copy, PartialEq, Eq)]
pub struct ExecuteMockSettlement {
    pub winner: AccountKey,
    pub config: AuctionConfig,
    pub market_key: AccountKey,
    pub market: MockDtfMarket,
    pub auction_round_key: AccountKey,
    pub auction_round: AuctionRound,
    pub winner_authorization: WinnerAuthorization,
    pub settlement_receipt_key: AccountKey,
    pub settlement_receipt: SettlementReceipt,
    pub settlement_receipt_bump: u8,
}

/// The program error that reports an economics error.
pub open spec fn math_error_code(error: MathError) -> AxisAuctionError {
    match error {
        MathError::Overflow => AxisAuctionError::MathOverflow,
        MathError::InvalidProtocolFeeBps => AxisAuctionError::InvalidProtocolFeeBps,
    }
}

/// Report an economics error as a program error.
pub fn map_math_error(error: MathError) -> (code: AxisAuctionError)
    ensures
        code == math_error_code(error),
{
    match error {
        MathError::Overflow => AxisAuctionError::MathOverflow,
        MathError::InvalidProtocolFeeBps => AxisAuctionError::InvalidProtocolFeeBps,
    }
}

/// The settlement is evaluated on the round's NAV snapshot (not the market's
/// current pre_nav, which may have changed after bidding), the market's target,
/// pool price and baseline cost, the authorized bid and the protocol fee.
pub open spec fn settlement_input(ctx: ExecuteMockSettlement) -> EconomicsInput {
    EconomicsInput {
        batch_size: ctx.market.batch_size,
        pre_nav: ctx.auction_round.nav_snapshot,
        target_nav: ctx.market.target_nav,
        mock_pool_price: ctx.market.mock_pool_price,
        expected_cost_without_auction: ctx.market.expected_cost_without_auction,
        winner_bid_amount: ctx.winner_authorization.bid_amount,
        protocol_fee_bps: ctx.config.protocol_fee_bps,
    }
}

/// The first reason the settlement is refused, if any.
pub open spec fn settlement_rejection(ctx: ExecuteMockSettlement, current_slot: u64) -> Option<
    AxisAuctionError,
> {
    let round = ctx.auction_round;
    let auth = ctx.winner_authorization;
    let economics = economics_spec(settlement_input(ctx));
    if round.market != ctx.market_key {
        Some(AxisAuctionError::MarketMismatch)
    } else if round.status != AuctionRound::STATUS_CLOSED {
        Some(AxisAuctionError::AuctionNotClosed)
    } else if auth.consumed {
        Some(AxisAuctionError::AuthorizationConsumed)
    } else if auth.winner != ctx.winner {
        Some(AxisAuctionError::Unauthorized)
    } else if auth.round != ctx.auction_round_key {
        Some(AxisAuctionError::RoundMismatch)
    } else if auth.market != ctx.market_key {
        Some(AxisAuctionError::MarketMismatch)
    } else if round.highest_bidder != ctx.winner {
        Some(AxisAuctionError::Unauthorized)
    } else if round.highest_bid != auth.bid_amount {
        Some(AxisAuctionError::BidMismatch)
    } else if !nav_is_fresh(ctx.market, current_slot) {
        Some(AxisAuctionError::StaleMarketState)
    } else if economics is Err {
        Some(math_error_code(economics->Err_0))
    } else if economics->Ok_0.settlement_out < ctx.market.min_settlement_out {
        Some(AxisAuctionError::MinOutNotMet)
    } else if economics->Ok_0.improvement_bps < ctx.market.min_improvement_bps {
        Some(AxisAuctionError::MinImprovementNotMet)
    } else {
        None
    }
}

/// The receipt of a settlement: its inputs and its economics.
pub open spec fn receipt_of(
    ctx: ExecuteMockSettlement,
    economics: EconomicsOutput,
    current_slot: u64,
) -> SettlementReceipt {
    SettlementReceipt {
        round: ctx.auction_round_key,
        market: ctx.market_key,
        winner: ctx.winner,
        pre_nav: ctx.auction_round.nav_snapshot,
        target_nav: ctx.market.target_nav,
        mock_pool_price: ctx.market.mock_pool_price,
        batch_size: ctx.market.batch_size,
        expected_cost_without_auction: ctx.market.expected_cost_without_auction,
        starting_gap_value: economics.starting_gap_value,
        settlement_out: economics.settlement_out,
        settlement_cost: economics.settlement_cost,
        winner_bid_amount: ctx.winner_authorization.bid_amount,
        auction_revenue: economics.auction_revenue,
        gap_closed_value: economics.gap_closed_value,
        gross_cost_reduction: economics.gross_cost_reduction,
        total_value_recaptured: economics.total_value_recaptured,
        protocol_revenue: economics.protocol_revenue,
        creator_revenue: economics.creator_revenue,
        net_protocol_benefit: economics.net_protocol_benefit,
        net_creator_benefit: economics.net_creator_benefit,
        improvement_bps: economics.improvement_bps,
        settled_slot: current_slot,
        bump: ctx.settlement_receipt_bump,
    }
}

/// The accounts after a settlement: the receipt is written, the authorization
/// is consumed and the round is settled; nothing else changes.
pub open spec fn settlement_post(
    ctx: ExecuteMockSettlement,
    current_slot: u64,
) -> ExecuteMockSettlement {
    ExecuteMockSettlement {
        auction_round: AuctionRound { status: AuctionRound::STATUS_SETTLED, ..ctx.auction_round },
        winner_authorization: WinnerAuthorization { consumed: true, ..ctx.winner_authorization },
        settlement_receipt: receipt_of(
            ctx,
            economics_spec(settlement_input(ctx))->Ok_0,
            current_slot,
        ),
        ..ctx
    }
}

/// The event that reports a receipt.
pub open spec fn settlement_event(
    receipt_key: AccountKey,
    receipt: SettlementReceipt,
) -> MockSettlementExecuted {
    MockSettlementExecuted {
        receipt: receipt_key,
        round: receipt.round,
        market: receipt.market,
        winner: receipt.winner,
        pre_nav: receipt.pre_nav,
        target_nav: receipt.target_nav,
        mock_pool_price: receipt.mock_pool_price,
        batch_size: receipt.batch_size,
        expected_cost_without_auction: receipt.expected_cost_without_auction,
        winner_bid_amount: receipt.winner_bid_amount,
        settlement_out: receipt.settlement_out,
        settlement_cost: receipt.settlement_cost,
        starting_gap_value: receipt.starting_gap_value,
        gap_closed_value: receipt.gap_closed_value,
        gross_cost_reduction: receipt.gross_cost_reduction,
        auction_revenue: receipt.auction_revenue,
        total_value_recaptured: receipt.total_value_recaptured,
        protocol_revenue: receipt.protocol_revenue,
        creator_revenue: receipt.creator_revenue,
        net_protocol_benefit: receipt.net_protocol_benefit,
        net_creator_benefit: receipt.net_creator_benefit,
        improvement_bps: receipt.improvement_bps,
        settled_slot: receipt.settled_slot,
    }
}

/// Execute the authorized winner's mock settlement at `current_slot`, record
/// its receipt, consume the authorization and settle the round. A refused
/// settlement leaves every account unchanged.
pub fn execute_mock_settlement(ctx: &mut ExecuteMockSettlement, current_slot: u64) -> (result:
    Result<MockSettlementExecuted, AxisAuctionError>)
    ensures
        match settlement_rejection(*old(ctx), current_slot) {
            Some(e) => result == Err::<MockSettlementExecuted, AxisAuctionError>(e) && *final(ctx)
                == *old(ctx),
            None => {
                let post = settlement_post(*old(ctx), current_slot);
                &&& *final(ctx) == post
                &&& result == Ok::<MockSettlementExecuted, AxisAuctionError>(
                    settlement_event(post.settlement_receipt_key, post.settlement_receipt),
                )
            },
        },
{
    if !ctx.auction_round.market.same(&ctx.market_key) {
        return Err(AxisAuctionError::MarketMismatch);
    }
    if ctx.auction_round.status != AuctionRound::STATUS_CLOSED {
        return Err(AxisAuctionError::AuctionNotClosed);
    }
    if ctx.winner_authorization.consumed {
        return Err(AxisAuctionError::AuthorizationConsumed);
    }
    if !ctx.winner_authorization.winner.same(&ctx.winner) {
        return Err(AxisAuctionError::Unauthorized);
    }
    if !ctx.winner_authorization.round.same(&ctx.auction_round_key) {
        return Err(AxisAuctionError::RoundMismatch);
    }
    if !ctx.winner_authorization.market.same(&ctx.market_key) {
        return Err(AxisAuctionError::MarketMismatch);
    }
    if !ctx.auction_round.market.same(&ctx.market_key) {
        return Err(AxisAuctionError::MarketMismatch);
    }
    if !ctx.auction_round.highest_bidder.same(&ctx.winner) {
        return Err(AxisAuctionError::Unauthorized);
    }
    if ctx.auction_round.highest_bid != ctx.winner_authorization.bid_amount {
        return Err(AxisAuctionError::BidMismatch);
    }
    let nav_age = match current_slot.checked_sub(ctx.market.nav_last_update_slot) {
        Some(age) => age,
        None => return Err(AxisAuctionError::StaleMarketState),
    };
    if nav_age > ctx.market.max_nav_staleness_slots {
        return Err(AxisAuctionError::StaleMarketState);
    }

    let economics = match calculate_economics(
        EconomicsInput {
            batch_size: ctx.market.batch_size,
            pre_nav: ctx.auction_round.nav_snapshot,
            target_nav: ctx.market.target_nav,
            mock_pool_price: ctx.market.mock_pool_price,
            expected_cost_without_auction: ctx.market.expected_cost_without_auction,
            winner_bid_amount: ctx.winner_authorization.bid_amount,
            protocol_fee_bps: ctx.config.protocol_fee_bps,
        },
    ) {
        Ok(economics) => economics,
        Err(e) => return Err(map_math_error(e)),
    };
    if economics.settlement_out < ctx.market.min_settlement_out {
        return Err(AxisAuctionError::MinOutNotMet);
    }
    if economics.improvement_bps < (ctx.market.min_improvement_bps as i64) {
        return Err(AxisAuctionError::MinImprovementNotMet);
    }

    ctx.settlement_receipt = SettlementReceipt {
        round: ctx.auction_round_key,
        market: ctx.market_key,
        winner: ctx.winner,
        pre_nav: ctx.auction_round.nav_snapshot,
        target_nav: ctx.market.target_nav,
        mock_pool_price: ctx.market.mock_pool_price,
        batch_size: ctx.market.batch_size,
        expected_cost_without_auction: ctx.market.expected_cost_without_auction,
        starting_gap_value: economics.starting_gap_value,
        settlement_out: economics.settlement_out,
        settlement_cost: economics.settlement_cost,
        winner_bid_amount: ctx.winner_authorization.bid_amount,
        // Accounting evidence only: vaults and tokens are not touched here.
        auction_revenue: economics.auction_revenue,
        gap_closed_value: economics.gap_closed_value,
        gross_cost_reduction: economics.gross_cost_reduction,
        total_value_recaptured: economics.total_value_recaptured,
        protocol_revenue: economics.protocol_revenue,
        creator_revenue: economics.creator_revenue,
        net_protocol_benefit: economics.net_protocol_benefit,
        net_creator_benefit: economics.net_creator_benefit,
        improvement_bps: economics.improvement_bps,
        settled_slot: current_slot,
        bump: ctx.settlement_receipt_bump,
    };
    ctx.winner_authorization.consumed = true;
    ctx.auction_round.status = AuctionRound::STATUS_SETTLED;

    let receipt = &ctx.settlement_receipt;
    Ok(
        MockSettlementExecuted {
            receipt: ctx.settlement_receipt_key,
            round: receipt.round,
            market: receipt.market,
            winner: receipt.winner,
            pre_nav: receipt.pre_nav,
            target_nav: receipt.target_nav,
            mock_pool_price: receipt.mock_pool_price,
            batch_size: receipt.batch_size,
            expected_cost_without_auction: receipt.expected_cost_without_auction,
            winner_bid_amount: receipt.winner_bid_amount,
            settlement_out: receipt.settlement_out,
            settlement_cost: receipt.settlement_cost,
            starting_gap_value: receipt.starting_gap_value,
            gap_closed_value: receipt.gap_closed_value,
            gross_cost_reduction: receipt.gross_cost_reduction,
            auction_revenue: receipt.auction_revenue,
            total_value_recaptured: receipt.total_value_recaptured,
            protocol_revenue: receipt.protocol_revenue,
            creator_revenue: receipt.creator_revenue,
            net_protocol_benefit: receipt.net_protocol_benefit,
            net_creator_benefit: receipt.net_creator_benefit,
            improvement_bps: receipt.improvement_bps,
            settled_slot: receipt.settled_slot,
        },
    )
}

} // verus!
