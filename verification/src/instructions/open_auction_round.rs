//! Open one auction round for a market's settlement/correction right.

use vstd::prelude::*;

use crate::errors::AxisAuctionError;
use crate::events::AuctionRoundOpened;
use crate::key::AccountKey;
use crate::state::{AuctionConfig, AuctionRound, MockDtfMarket};

verus! {

/// The accounts of a round opening: the signer, the configuration, the market
/// (written: its round counter advances) and the round being created.
#[derive(Debug, Clone, Copy, PartialEq, Eq)]
pub struct OpenAuctionRound {
    pub opener: AccountKey,
    pub config: AuctionConfig,
    pub market_key: AccountKey,
    pub market: MockDtfMarket,
    pub auction_round_key: AccountKey,
    pub auction_round: AuctionRound,
    pub auction_round_bump: u8,
}

/// The market's NAV is fresh at `current_slot`: not from the future and no
/// older than the market allows.
pub open spec fn nav_is_fresh(market: MockDtfMarket, current_slot: u64) -> bool {
    market.nav_last_update_slot <= current_slot && current_slot - market.nav_last_update_slot
        <= market.max_nav_staleness_slots
}

/// The first reason the opening is refused, if any.
pub open spec fn open_round_rejection(
    ctx: OpenAuctionRound,
    current_slot: u64,
    duration_slots: u64,
) -> Option<AxisAuctionError> {
    if duration_slots == 0 {
        Some(AxisAuctionError::InvalidAuctionDuration)
    } else if ctx.opener != ctx.market.creator && ctx.opener != ctx.config.authority {
        Some(AxisAuctionError::Unauthorized)
    } else if !nav_is_fresh(ctx.market, current_slot) {
        Some(AxisAuctionError::StaleMarketState)
    } else if current_slot + duration_slots > u64::MAX {
        Some(AxisAuctionError::MathOverflow)
    } else if ctx.market.round_counter == u64::MAX {
        Some(AxisAuctionError::MathOverflow)
    } else {
        None
    }
}

/// The round that opens: numbered by the market's round counter, open from
/// `current_slot` for `duration_slots`, without bids, with the market's current
/// NAV as its snapshot.
pub open spec fn opened_round(
    ctx: OpenAuctionRound,
    current_slot: u64,
    duration_slots: u64,
) -> AuctionRound {
    AuctionRound {
        market: ctx.market_key,
        round_index: ctx.market.round_counter,
        status: AuctionRound::STATUS_OPEN,
        open_slot: current_slot,
        close_after_slot: (current_slot + duration_slots) as u64,
        highest_bid: 0,
        highest_bidder: AccountKey::zero(),
        bid_count: 0,
        nav_snapshot: ctx.market.pre_nav,
        nav_snapshot_slot: current_slot,
        payment_recorded: false,
        bump: ctx.auction_round_bump,
    }
}

/// The accounts after a successful opening: the round is written and the
/// market's round counter advances by one.
pub open spec fn open_round_post(
    ctx: OpenAuctionRound,
    current_slot: u64,
    duration_slots: u64,
) -> OpenAuctionRound {
    OpenAuctionRound {
        market: MockDtfMarket { round_counter: (ctx.market.round_counter + 1) as u64, ..ctx.market },
        auction_round: opened_round(ctx, current_slot, duration_slots),
        ..ctx
    }
}

pub open spec fn open_round_event(
    ctx: OpenAuctionRound,
    current_slot: u64,
    duration_slots: u64,
) -> AuctionRoundOpened {
    AuctionRoundOpened {
        market: ctx.market_key,
        round: ctx.auction_round_key,
        round_index: ctx.market.round_counter,
        open_slot: current_slot,
        close_after_slot: (current_slot + duration_slots) as u64,
        nav_snapshot: ctx.market.pre_nav,
        nav_snapshot_slot: current_slot,
    }
}

/// Open the market's next round at `current_slot`. Only the market creator or
/// the configuration authority may open one, and only while the market's NAV
/// is fresh. A refused opening leaves every account unchanged.
pub fn open_auction_round(
    ctx: &mut OpenAuctionRound,
    current_slot: u64,
    duration_slots: u64,
) -> (result: Result<AuctionRoundOpened, AxisAuctionError>)
    ensures
        match open_round_rejection(*old(ctx), current_slot, duration_slots) {
            Some(e) => result == Err::<AuctionRoundOpened, AxisAuctionError>(e) && *final(ctx)
                == *old(ctx),
            None => result == Ok::<AuctionRoundOpened, AxisAuctionError>(
                open_round_event(*old(ctx), current_slot, duration_slots),
            ) && *final(ctx) == open_round_post(*old(ctx), current_slot, duration_slots),
        },
{
    if duration_slots == 0 {
        return Err(AxisAuctionError::InvalidAuctionDuration);
    }
    let opener = ctx.opener;
    if !(opener.same(&ctx.market.creator) || opener.same(&ctx.config.authority)) {
        return Err(AxisAuctionError::Unauthorized);
    }
    let nav_age = match current_slot.checked_sub(ctx.market.nav_last_update_slot) {
        Some(age) => age,
        None => return Err(AxisAuctionError::StaleMarketState),
    };
    if nav_age > ctx.market.max_nav_staleness_slots {
        return Err(AxisAuctionError::StaleMarketState);
    }
    let close_after_slot = match current_slot.checked_add(duration_slots) {
        Some(slot) => slot,
        None => return Err(AxisAuctionError::MathOverflow),
    };
    let round_index = ctx.market.round_counter;
    let next_round_counter = match round_index.checked_add(1) {
        Some(counter) => counter,
        None => return Err(AxisAuctionError::MathOverflow),
    };

    ctx.auction_round = AuctionRound {
        market: ctx.market_key,
        round_index,
        status: AuctionRound::STATUS_OPEN,
        open_slot: current_slot,
        close_after_slot,
        highest_bid: 0,
        highest_bidder: AccountKey::default_key(),
        bid_count: 0,
        nav_snapshot: ctx.market.pre_nav,
        nav_snapshot_slot: current_slot,
        payment_recorded: false,
        bump: ctx.auction_round_bump,
    };
    ctx.market.round_counter = next_round_counter;

    Ok(
        AuctionRoundOpened {
            market: ctx.auction_round.market,
            round: ctx.auction_round_key,
            round_index,
            open_slot: current_slot,
            close_after_slot,
            nav_snapshot: ctx.auction_round.nav_snapshot,
            nav_snapshot_slot: current_slot,
        },
    )
}

} // verus!
