//! Close an elapsed auction and issue its winner-only authorization.

use vstd::prelude::*;

use crate::errors::AxisAuctionError;
use crate::events::{AuctionClosed, WinnerAuthorized};
use crate::key::AccountKey;
use crate::state::{AuctionRound, WinnerAuthorization};

verus! {

/// The accounts of a closing: the signer, the market's address, the round
/// (written) and the winner authorization being created.
#[derive(Debug, Clone, Copy, PartialEq, Eq)]
pub struct CloseAuctionSelectWinner {
    pub closer: AccountKey,
    pub market_key: AccountKey,
    pub auction_round_key: AccountKey,
    pub auction_round: AuctionRound,
    pub winner_authorization_key: AccountKey,
    pub winner_authorization: WinnerAuthorization,
    pub winner_authorization_bump: u8,
}

/// The first reason the closing is refused, if any.
pub open spec fn close_rejection(ctx: CloseAuctionSelectWinner, current_slot: u64) -> Option<
    AxisAuctionError,
> {
    let round = ctx.auction_round;
    if round.market != ctx.market_key {
        Some(AxisAuctionError::MarketMismatch)
    } else if round.status != AuctionRound::STATUS_OPEN {
        Some(AxisAuctionError::AuctionNotOpen)
    } else if current_slot < round.close_after_slot {
        Some(AxisAuctionError::AuctionNotClosed)
    } else if round.highest_bid == 0 || round.highest_bidder.is_zero() {
        Some(AxisAuctionError::NoBids)
    } else {
        None
    }
}

/// The authorization issued to the highest bidder for the highest bid.
pub open spec fn issued_authorization(
    ctx: CloseAuctionSelectWinner,
    current_slot: u64,
) -> WinnerAuthorization {
    WinnerAuthorization {
        round: ctx.auction_round_key,
        market: ctx.market_key,
        winner: ctx.auction_round.highest_bidder,
        bid_amount: ctx.auction_round.highest_bid,
        issued_slot: current_slot,
        consumed: false,
        bump: ctx.winner_authorization_bump,
    }
}

/// The accounts after a closing: the authorization is issued and the round is
/// closed; nothing else changes.
pub open spec fn close_post(
    ctx: CloseAuctionSelectWinner,
    current_slot: u64,
) -> CloseAuctionSelectWinner {
    CloseAuctionSelectWinner {
        auction_round: AuctionRound { status: AuctionRound::STATUS_CLOSED, ..ctx.auction_round },
        winner_authorization: issued_authorization(ctx, current_slot),
        ..ctx
    }
}

pub open spec fn close_events(ctx: CloseAuctionSelectWinner, current_slot: u64) -> (
    AuctionClosed,
    WinnerAuthorized,
) {
    (
        AuctionClosed {
            round: ctx.auction_round_key,
            market: ctx.auction_round.market,
            winner: ctx.auction_round.highest_bidder,
            winning_bid: ctx.auction_round.highest_bid,
            close_slot: current_slot,
        },
        WinnerAuthorized {
            round: ctx.auction_round_key,
            market: ctx.market_key,
            winner: ctx.auction_round.highest_bidder,
            bid_amount: ctx.auction_round.highest_bid,
            issued_slot: current_slot,
        },
    )
}

/// Close an open round whose bidding window has elapsed at `current_slot` and
/// authorize its highest bidder. A refused closing leaves every account
/// unchanged.
pub fn close_auction_select_winner(
    ctx: &mut CloseAuctionSelectWinner,
    current_slot: u64,
) -> (result: Result<(AuctionClosed, WinnerAuthorized), AxisAuctionError>)
    ensures
        match close_rejection(*old(ctx), current_slot) {
            Some(e) => result == Err::<(AuctionClosed, WinnerAuthorized), AxisAuctionError>(e)
                && *final(ctx) == *old(ctx),
            None => result == Ok::<(AuctionClosed, WinnerAuthorized), AxisAuctionError>(
                close_events(*old(ctx), current_slot),
            ) && *final(ctx) == close_post(*old(ctx), current_slot),
        },
{
    if !ctx.auction_round.market.same(&ctx.market_key) {
        return Err(AxisAuctionError::MarketMismatch);
    }
    if ctx.auction_round.status != AuctionRound::STATUS_OPEN {
        return Err(AxisAuctionError::AuctionNotOpen);
    }
    if current_slot < ctx.auction_round.close_after_slot {
        return Err(AxisAuctionError::AuctionNotClosed);
    }
    if !(ctx.auction_round.highest_bid > 0 && !ctx.auction_round.highest_bidder.is_default()) {
        return Err(AxisAuctionError::NoBids);
    }

    ctx.winner_authorization = WinnerAuthorization {
        round: ctx.auction_round_key,
        market: ctx.market_key,
        winner: ctx.auction_round.highest_bidder,
        bid_amount: ctx.auction_round.highest_bid,
        issued_slot: current_slot,
        consumed: false,
        bump: ctx.winner_authorization_bump,
    };
    ctx.auction_round.status = AuctionRound::STATUS_CLOSED;

    let closed = AuctionClosed {
        round: ctx.auction_round_key,
        market: ctx.auction_round.market,
        winner: ctx.winner_authorization.winner,
        winning_bid: ctx.winner_authorization.bid_amount,
        close_slot: current_slot,
    };
    let authorized = WinnerAuthorized {
        round: ctx.winner_authorization.round,
        market: ctx.winner_authorization.market,
        winner: ctx.winner_authorization.winner,
        bid_amount: ctx.winner_authorization.bid_amount,
        issued_slot: current_slot,
    };
    Ok((closed, authorized))
}

} // verus!
