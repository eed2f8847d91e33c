//! Submit or improve a bidder's current bid for an open auction round.

use vstd::prelude::*;

use crate::constants::BPS_SCALE;
use crate::errors::AxisAuctionError;
use crate::events::BidSubmitted;
use crate::key::AccountKey;
use crate::math::in_u64;
use crate::state::{AuctionConfig, AuctionRound, BidRecord};

verus! {

/// The accounts of a bid: the signing bidder, the configuration, the market's
/// address, the round (written) and the bidder's bid record for the round
/// (written; all-zero when the bidder has not bid on this round before).
#[derive(Debug, Clone, Copy, PartialEq, Eq)]
pub struct SubmitBid {
    pub bidder: AccountKey,
    pub config: AuctionConfig,
    pub market_key: AccountKey,
    pub auction_round_key: AccountKey,
    pub auction_round: AuctionRound,
    pub bid_record: BidRecord,
    pub bid_record_bump: u8,
}

/// The least acceptable next bid: any bid on a round without bids, otherwise
/// the highest bid raised by `min_improvement_bps`, rounded up.
pub open spec fn next_bid_floor(highest_bid: u64, min_improvement_bps: u16) -> int {
    if highest_bid == 0 {
        0
    } else {
        (highest_bid * (BPS_SCALE + min_improvement_bps) + (BPS_SCALE - 1)) / (BPS_SCALE as int)
    }
}

/// The least acceptable next bid; `MathOverflow` when it does not fit 64 bits.
pub fn minimum_next_bid(highest_bid: u64, min_improvement_bps: u16) -> (result: Result<
    u64,
    AxisAuctionError,
>)
    ensures
        in_u64(next_bid_floor(highest_bid, min_improvement_bps)) ==> result == Ok::<
            u64,
            AxisAuctionError,
        >(next_bid_floor(highest_bid, min_improvement_bps) as u64),
        !in_u64(next_bid_floor(highest_bid, min_improvement_bps)) ==> result == Err::<
            u64,
            AxisAuctionError,
        >(AxisAuctionError::MathOverflow),
{
    if highest_bid == 0 {
        return Ok(0);
    }
    let denominator: u128 = BPS_SCALE;
    let multiplier: u128 = denominator + (min_improvement_bps as u128);
    assert((highest_bid as int) * (multiplier as int) <= (u64::MAX as int) * 100_000)
        by (nonlinear_arith)
        requires
            0 <= highest_bid <= u64::MAX,
            0 <= multiplier <= 100_000,
    ;
    let numerator: u128 = (highest_bid as u128) * multiplier;
    let rounded_up: u128 = (numerator + (denominator - 1)) / denominator;
    if rounded_up <= (u64::MAX as u128) {
        Ok(rounded_up as u64)
    } else {
        Err(AxisAuctionError::MathOverflow)
    }
}

/// The bid record belongs to nobody yet: the bidder bids on this round for the
/// first time.
pub open spec fn is_new_bidder(ctx: SubmitBid) -> bool {
    ctx.bid_record.round.is_zero()
}

/// The first reason the bid is refused, if any.
pub open spec fn submit_bid_rejection(
    ctx: SubmitBid,
    current_slot: u64,
    amount: u64,
) -> Option<AxisAuctionError> {
    let round = ctx.auction_round;
    let floor = next_bid_floor(round.highest_bid, ctx.config.min_improvement_bps);
    if round.market != ctx.market_key {
        Some(AxisAuctionError::MarketMismatch)
    } else if round.status != AuctionRound::STATUS_OPEN {
        Some(AxisAuctionError::AuctionNotOpen)
    } else if current_slot >= round.close_after_slot {
        Some(AxisAuctionError::AuctionExpired)
    } else if ctx.config.min_improvement_bps > BPS_SCALE {
        Some(AxisAuctionError::InvalidMinImprovementBps)
    } else if amount < ctx.config.min_bid_amount {
        Some(AxisAuctionError::BidTooLow)
    } else if !in_u64(floor) {
        Some(AxisAuctionError::MathOverflow)
    } else if amount < floor {
        Some(AxisAuctionError::BidTooLow)
    } else if !is_new_bidder(ctx) && ctx.bid_record.round != ctx.auction_round_key {
        Some(AxisAuctionError::RoundMismatch)
    } else if !is_new_bidder(ctx) && ctx.bid_record.bidder != ctx.bidder {
        Some(AxisAuctionError::Unauthorized)
    } else if is_new_bidder(ctx) && round.bid_count == u32::MAX {
        Some(AxisAuctionError::MathOverflow)
    } else {
        None
    }
}

/// The round's bid count after the bid: one more for a new bidder.
pub open spec fn bid_count_after(ctx: SubmitBid) -> u32 {
    if is_new_bidder(ctx) {
        (ctx.auction_round.bid_count + 1) as u32
    } else {
        ctx.auction_round.bid_count
    }
}

/// The accounts after an accepted bid: the bidder's record holds the bid, and
/// the bid is the round's highest.
pub open spec fn submit_bid_post(ctx: SubmitBid, current_slot: u64, amount: u64) -> SubmitBid {
    SubmitBid {
        bid_record: BidRecord {
            round: ctx.auction_round_key,
            bidder: ctx.bidder,
            amount,
            slot: current_slot,
            bump: ctx.bid_record_bump,
        },
        auction_round: AuctionRound {
            highest_bid: amount,
            highest_bidder: ctx.bidder,
            bid_count: bid_count_after(ctx),
            ..ctx.auction_round
        },
        ..ctx
    }
}

pub open spec fn submit_bid_event(ctx: SubmitBid, current_slot: u64, amount: u64) -> BidSubmitted {
    BidSubmitted {
        round: ctx.auction_round_key,
        bidder: ctx.bidder,
        amount,
        slot: current_slot,
        bid_count: bid_count_after(ctx),
    }
}

/// Submit (or raise) the bidder's bid at `current_slot`. A refused bid leaves
/// every account unchanged.
pub fn submit_bid(ctx: &mut SubmitBid, current_slot: u64, amount: u64) -> (result: Result<
    BidSubmitted,
    AxisAuctionError,
>)
    ensures
        match submit_bid_rejection(*old(ctx), current_slot, amount) {
            Some(e) => result == Err::<BidSubmitted, AxisAuctionError>(e) && *final(ctx) == *old(
                ctx,
            ),
            None => result == Ok::<BidSubmitted, AxisAuctionError>(
                submit_bid_event(*old(ctx), current_slot, amount),
            ) && *final(ctx) == submit_bid_post(*old(ctx), current_slot, amount),
        },
{
    if !ctx.auction_round.market.same(&ctx.market_key) {
        return Err(AxisAuctionError::MarketMismatch);
    }
    if ctx.auction_round.status != AuctionRound::STATUS_OPEN {
        return Err(AxisAuctionError::AuctionNotOpen);
    }
    if current_slot >= ctx.auction_round.close_after_slot {
        return Err(AxisAuctionError::AuctionExpired);
    }
    if (ctx.config.min_improvement_bps as u128) > BPS_SCALE {
        return Err(AxisAuctionError::InvalidMinImprovementBps);
    }
    if amount < ctx.config.min_bid_amount {
        return Err(AxisAuctionError::BidTooLow);
    }
    let required_bid = match minimum_next_bid(
        ctx.auction_round.highest_bid,
        ctx.config.min_improvement_bps,
    ) {
        Ok(bid) => bid,
        Err(e) => return Err(e),
    };
    if amount < required_bid {
        return Err(AxisAuctionError::BidTooLow);
    }

    let is_new_bidder = ctx.bid_record.round.is_default();
    if !is_new_bidder {
        if !ctx.bid_record.round.same(&ctx.auction_round_key) {
            return Err(AxisAuctionError::RoundMismatch);
        }
        if !ctx.bid_record.bidder.same(&ctx.bidder) {
            return Err(AxisAuctionError::Unauthorized);
        }
    }
    let bid_count = if is_new_bidder {
        match ctx.auction_round.bid_count.checked_add(1) {
            Some(count) => count,
            None => return Err(AxisAuctionError::MathOverflow),
        }
    } else {
        ctx.auction_round.bid_count
    };

    ctx.bid_record = BidRecord {
        round: ctx.auction_round_key,
        bidder: ctx.bidder,
        amount,
        slot: current_slot,
        bump: ctx.bid_record_bump,
    };
    ctx.auction_round.highest_bid = amount;
    ctx.auction_round.highest_bidder = ctx.bidder;
    ctx.auction_round.bid_count = bid_count;

    Ok(
        BidSubmitted {
            round: ctx.auction_round_key,
            bidder: ctx.bid_record.bidder,
            amount,
            slot: current_slot,
            bid_count,
        },
    )
}

} // verus!
