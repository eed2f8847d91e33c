//! Record settled auction revenue without transferring any tokens.

use vstd::prelude::*;

use crate::errors::AxisAuctionError;
use crate::events::AuctionPaymentRecorded;
use crate::key::AccountKey;
use crate::state::{
    AuctionConfig, AuctionRound, CreatorRevenueVault, MockDtfMarket, ProtocolRevenueVault,
    SettlementReceipt,
};

verus! {

/// The accounts of a payment record: the signer (anyone may record), the
/// configuration, the market, the round (written), the settlement receipt and
/// the two revenue vaults (written).
#[derive(Debug, Clone, Copy, PartialEq, Eq)]
pub struct ClaimOrRecordAuctionPayment {
    pub recorder: AccountKey,
    pub config: AuctionConfig,
    pub market_key: AccountKey,
    pub market: MockDtfMarket,
    pub auction_round_key: AccountKey,
    pub auction_round: AuctionRound,
    pub settlement_receipt: SettlementReceipt,
    pub protocol_revenue_vault_key: AccountKey,
    pub protocol_revenue_vault: ProtocolRevenueVault,
    pub creator_revenue_vault_key: AccountKey,
    pub creator_revenue_vault: CreatorRevenueVault,
}

/// The first reason the record is refused, if any.
pub open spec fn payment_rejection(ctx: ClaimOrRecordAuctionPayment) -> Option<AxisAuctionError> {
    let round = ctx.auction_round;
    let receipt = ctx.settlement_receipt;
    let protocol_vault = ctx.protocol_revenue_vault;
    let creator_vault = ctx.creator_revenue_vault;
    if round.market != ctx.market_key {
        Some(AxisAuctionError::MarketMismatch)
    } else if receipt.round != ctx.auction_round_key {
        Some(AxisAuctionError::RoundMismatch)
    } else if receipt.market != ctx.market_key {
        Some(AxisAuctionError::MarketMismatch)
    } else if ctx.protocol_revenue_vault_key != ctx.config.protocol_revenue_vault {
        Some(AxisAuctionError::WrongRevenueVault)
    } else if ctx.creator_revenue_vault_key != ctx.market.creator_revenue_vault {
        Some(AxisAuctionError::WrongRevenueVault)
    } else if round.status != AuctionRound::STATUS_SETTLED {
        Some(AxisAuctionError::AuctionNotSettled)
    } else if round.payment_recorded {
        Some(AxisAuctionError::PaymentAlreadyRecorded)
    } else if receipt.winner != round.highest_bidder {
        Some(AxisAuctionError::Unauthorized)
    } else if receipt.winner_bid_amount != round.highest_bid || receipt.auction_revenue
        != receipt.winner_bid_amount {
        Some(AxisAuctionError::BidMismatch)
    } else if receipt.protocol_revenue + receipt.creator_revenue > u64::MAX {
        Some(AxisAuctionError::MathOverflow)
    } else if receipt.protocol_revenue + receipt.creator_revenue != receipt.auction_revenue {
        Some(AxisAuctionError::BidMismatch)
    } else if protocol_vault.authority != ctx.config.authority {
        Some(AxisAuctionError::WrongRevenueVault)
    } else if creator_vault.authority != ctx.market.creator {
        Some(AxisAuctionError::WrongRevenueVault)
    } else if protocol_vault.usdc_mint != ctx.market.usdc_mint {
        Some(AxisAuctionError::WrongRevenueVault)
    } else if creator_vault.usdc_mint != ctx.market.usdc_mint {
        Some(AxisAuctionError::WrongRevenueVault)
    } else if protocol_vault.total_in + receipt.protocol_revenue > u64::MAX {
        Some(AxisAuctionError::MathOverflow)
    } else if creator_vault.total_in + receipt.creator_revenue > u64::MAX {
        Some(AxisAuctionError::MathOverflow)
    } else {
        None
    }
}

/// The accounts after a record: each vault's total grows by its share of the
/// receipt's revenue and the round is marked as recorded; nothing else changes.
pub open spec fn payment_post(ctx: ClaimOrRecordAuctionPayment) -> ClaimOrRecordAuctionPayment {
    ClaimOrRecordAuctionPayment {
        auction_round: AuctionRound { payment_recorded: true, ..ctx.auction_round },
        protocol_revenue_vault: ProtocolRevenueVault {
            total_in: (ctx.protocol_revenue_vault.total_in
                + ctx.settlement_receipt.protocol_revenue) as u64,
            ..ctx.protocol_revenue_vault
        },
        creator_revenue_vault: CreatorRevenueVault {
            total_in: (ctx.creator_revenue_vault.total_in
                + ctx.settlement_receipt.creator_revenue) as u64,
            ..ctx.creator_revenue_vault
        },
        ..ctx
    }
}

pub open spec fn payment_event(ctx: ClaimOrRecordAuctionPayment) -> AuctionPaymentRecorded {
    AuctionPaymentRecorded {
        round: ctx.auction_round_key,
        market: ctx.settlement_receipt.market,
        winner: ctx.settlement_receipt.winner,
        auction_revenue: ctx.settlement_receipt.auction_revenue,
        protocol_revenue: ctx.settlement_receipt.protocol_revenue,
        creator_revenue: ctx.settlement_receipt.creator_revenue,
        protocol_revenue_vault: ctx.protocol_revenue_vault_key,
        creator_revenue_vault: ctx.creator_revenue_vault_key,
    }
}

/// Record a settled round's auction revenue in the protocol and creator vaults.
/// This updates accounting only: no token account is touched. A refused record
/// leaves every account unchanged.
pub fn claim_or_record_auction_payment(ctx: &mut ClaimOrRecordAuctionPayment) -> (result: Result<
    AuctionPaymentRecorded,
    AxisAuctionError,
>)
    ensures
        match payment_rejection(*old(ctx)) {
            Some(e) => result == Err::<AuctionPaymentRecorded, AxisAuctionError>(e) && *final(ctx)
                == *old(ctx),
            None => result == Ok::<AuctionPaymentRecorded, AxisAuctionError>(
                payment_event(*old(ctx)),
            ) && *final(ctx) == payment_post(*old(ctx)),
        },
{
    if !ctx.auction_round.market.same(&ctx.market_key) {
        return Err(AxisAuctionError::MarketMismatch);
    }
    if !ctx.settlement_receipt.round.same(&ctx.auction_round_key) {
        return Err(AxisAuctionError::RoundMismatch);
    }
    if !ctx.settlement_receipt.market.same(&ctx.market_key) {
        return Err(AxisAuctionError::MarketMismatch);
    }
    if !ctx.protocol_revenue_vault_key.same(&ctx.config.protocol_revenue_vault) {
        return Err(AxisAuctionError::WrongRevenueVault);
    }
    if !ctx.creator_revenue_vault_key.same(&ctx.market.creator_revenue_vault) {
        return Err(AxisAuctionError::WrongRevenueVault);
    }

    if ctx.auction_round.status != AuctionRound::STATUS_SETTLED {
        return Err(AxisAuctionError::AuctionNotSettled);
    }
    if ctx.auction_round.payment_recorded {
        return Err(AxisAuctionError::PaymentAlreadyRecorded);
    }
    if !ctx.settlement_receipt.round.same(&ctx.auction_round_key) {
        return Err(AxisAuctionError::RoundMismatch);
    }
    if !ctx.settlement_receipt.market.same(&ctx.market_key) {
        return Err(AxisAuctionError::MarketMismatch);
    }
    if !ctx.settlement_receipt.winner.same(&ctx.auction_round.highest_bidder) {
        return Err(AxisAuctionError::Unauthorized);
    }
    if !(ctx.settlement_receipt.winner_bid_amount == ctx.auction_round.highest_bid
        && ctx.settlement_receipt.auction_revenue == ctx.settlement_receipt.winner_bid_amount) {
        return Err(AxisAuctionError::BidMismatch);
    }
    let recorded_revenue = match ctx.settlement_receipt.protocol_revenue.checked_add(
        ctx.settlement_receipt.creator_revenue,
    ) {
        Some(total) => total,
        None => return Err(AxisAuctionError::MathOverflow),
    };
    if recorded_revenue != ctx.settlement_receipt.auction_revenue {
        return Err(AxisAuctionError::BidMismatch);
    }

    if !ctx.protocol_revenue_vault.authority.same(&ctx.config.authority) {
        return Err(AxisAuctionError::WrongRevenueVault);
    }
    if !ctx.creator_revenue_vault.authority.same(&ctx.market.creator) {
        return Err(AxisAuctionError::WrongRevenueVault);
    }
    if !ctx.protocol_revenue_vault.usdc_mint.same(&ctx.market.usdc_mint) {
        return Err(AxisAuctionError::WrongRevenueVault);
    }
    if !ctx.creator_revenue_vault.usdc_mint.same(&ctx.market.usdc_mint) {
        return Err(AxisAuctionError::WrongRevenueVault);
    }

    // Accounting only: no token account is invoked and no balance moves.
    let protocol_total = match ctx.protocol_revenue_vault.total_in.checked_add(
        ctx.settlement_receipt.protocol_revenue,
    ) {
        Some(total) => total,
        None => return Err(AxisAuctionError::MathOverflow),
    };
    let creator_total = match ctx.creator_revenue_vault.total_in.checked_add(
        ctx.settlement_receipt.creator_revenue,
    ) {
        Some(total) => total,
        None => return Err(AxisAuctionError::MathOverflow),
    };
    ctx.protocol_revenue_vault.total_in = protocol_total;
    ctx.creator_revenue_vault.total_in = creator_total;
    ctx.auction_round.payment_recorded = true;

    Ok(
        AuctionPaymentRecorded {
            round: ctx.auction_round_key,
            market: ctx.settlement_receipt.market,
            winner: ctx.settlement_receipt.winner,
            auction_revenue: ctx.settlement_receipt.auction_revenue,
            protocol_revenue: ctx.settlement_receipt.protocol_revenue,
            creator_revenue: ctx.settlement_receipt.creator_revenue,
            protocol_revenue_vault: ctx.protocol_revenue_vault_key,
            creator_revenue_vault: ctx.creator_revenue_vault_key,
        },
    )
}

} // verus!
