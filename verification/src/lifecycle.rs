//! Laws of the auction lifecycle: what each accepted step guarantees, and how
//! the steps follow one another (open, bid, close, settle, record).

use vstd::prelude::*;

use crate::errors::AxisAuctionError;
use crate::instructions::claim_or_record_auction_payment::{
    payment_post, payment_rejection, ClaimOrRecordAuctionPayment,
};
use crate::instructions::close_auction_select_winner::{
    close_post, close_rejection, CloseAuctionSelectWinner,
};
use crate::instructions::execute_mock_settlement::{
    settlement_event, settlement_input, settlement_post, settlement_rejection,
    ExecuteMockSettlement,
};
use crate::instructions::open_auction_round::{
    open_round_post, open_round_rejection, OpenAuctionRound,
};
use crate::instructions::submit_bid::{
    is_new_bidder, next_bid_floor, submit_bid_post, submit_bid_rejection,
    SubmitBid,
};
use crate::math::{
    constraints_met, economics_spec, lemma_economics_formulas, lemma_economics_identities,
    rounds_down_to,
};
use crate::instructions::create_mock_market::create_market_rejection;
use crate::instructions::initialize_config::{
    initialized_config, initialized_protocol_vault, InitializeConfig,
};
use crate::instructions::execute_mock_settlement::math_error_code;
use crate::instructions::claim_or_record_auction_payment::payment_event;
use crate::instructions::submit_bid::submit_bid_event;
use crate::instructions::open_auction_round::open_round_event;
use crate::instructions::close_auction_select_winner::close_events;
use crate::math::MathError;
use crate::key::AccountKey;
use crate::state::AuctionRound;

verus! {

/// The next acceptable bid is never below the highest bid, and it is strictly
/// above it once there is a bid and the required improvement is positive.
pub proof fn lemma_next_bid_floor_raises(highest_bid: u64, min_improvement_bps: u16)
    ensures
        next_bid_floor(highest_bid, min_improvement_bps) >= highest_bid,
        highest_bid > 0 && min_improvement_bps > 0 ==> next_bid_floor(
            highest_bid,
            min_improvement_bps,
        ) > highest_bid,
{
    if highest_bid > 0 {
        let h = highest_bid as int;
        let b = min_improvement_bps as int;
        assert((h * (10_000 + b) + 9_999) / 10_000 >= h) by (nonlinear_arith)
            requires
                h > 0,
                b >= 0,
        ;
        if b > 0 {
            assert((h * (10_000 + b) + 9_999) / 10_000 > h) by (nonlinear_arith)
                requires
                    h > 0,
                    b > 0,
            ;
        }
    }
}

/// A round is opened only by the market creator or the configuration authority,
/// with index equal to the market's round counter, which then advances by one;
/// the new round is open, without bids, and snapshots the market's NAV.
pub proof fn lemma_opened_round(ctx: OpenAuctionRound, current_slot: u64, duration_slots: u64)
    requires
        open_round_rejection(ctx, current_slot, duration_slots) is None,
    ensures
        ({
            let post = open_round_post(ctx, current_slot, duration_slots);
            &&& ctx.opener == ctx.market.creator || ctx.opener == ctx.config.authority
            &&& post.market.round_counter == ctx.market.round_counter + 1
            &&& post.auction_round.round_index == ctx.market.round_counter
            &&& post.auction_round.status == AuctionRound::STATUS_OPEN
            &&& post.auction_round.highest_bid == 0
            &&& post.auction_round.bid_count == 0
            &&& post.auction_round.nav_snapshot == ctx.market.pre_nav
            &&& post.auction_round.close_after_slot == current_slot + duration_slots
            &&& post.auction_round.close_after_slot > current_slot
            &&& post.auction_round.market == ctx.market_key
            &&& post.auction_round.open_slot == current_slot
            &&& post.auction_round.nav_snapshot_slot == current_slot
            &&& post.auction_round.highest_bidder.is_zero()
            &&& !post.auction_round.payment_recorded
        }),
{
    crate::key::lemma_zero_is_unique(AccountKey::zero());
}

/// An accepted bid is placed on an open round before it closes, meets the
/// configured minimum and the required improvement, and becomes the round's
/// highest bid (so the highest bid never decreases); the bid count grows by one
/// exactly for a bidder new to the round, and the round stays open.
pub proof fn lemma_accepted_bid_leads(ctx: SubmitBid, current_slot: u64, amount: u64)
    requires
        submit_bid_rejection(ctx, current_slot, amount) is None,
    ensures
        ({
            let post = submit_bid_post(ctx, current_slot, amount);
            &&& ctx.auction_round.status == AuctionRound::STATUS_OPEN
            &&& current_slot < ctx.auction_round.close_after_slot
            &&& amount >= ctx.config.min_bid_amount
            &&& amount >= next_bid_floor(ctx.auction_round.highest_bid, ctx.config.min_improvement_bps)
            &&& post.auction_round.highest_bid == amount
            &&& post.auction_round.highest_bid >= ctx.auction_round.highest_bid
            &&& post.auction_round.highest_bidder == ctx.bidder
            &&& post.auction_round.status == AuctionRound::STATUS_OPEN
            &&& post.auction_round.close_after_slot == ctx.auction_round.close_after_slot
            &&& post.auction_round.bid_count == ctx.auction_round.bid_count + (if is_new_bidder(ctx) {
                1int
            } else {
                0int
            })
            &&& post.bid_record.bidder == ctx.bidder
            &&& post.bid_record.round == ctx.auction_round_key
            &&& post.bid_record.amount == amount
        }),
{
    lemma_next_bid_floor_raises(ctx.auction_round.highest_bid, ctx.config.min_improvement_bps);
}

/// A round closes only once its bidding window has elapsed and it has a bid;
/// the authorization names the highest bidder and the highest bid. After that,
/// the round can be closed no more and no bid on it is accepted.
pub proof fn lemma_close_is_final(
    ctx: CloseAuctionSelectWinner,
    current_slot: u64,
    later_slot: u64,
    bid: SubmitBid,
    amount: u64,
)
    requires
        close_rejection(ctx, current_slot) is None,
        bid.auction_round == close_post(ctx, current_slot).auction_round,
        bid.market_key == ctx.market_key,
    ensures
        ({
            let post = close_post(ctx, current_slot);
            &&& current_slot >= ctx.auction_round.close_after_slot
            &&& ctx.auction_round.highest_bid > 0
            &&& !ctx.auction_round.highest_bidder.is_zero()
            &&& post.auction_round.status == AuctionRound::STATUS_CLOSED
            &&& post.winner_authorization.winner == ctx.auction_round.highest_bidder
            &&& post.winner_authorization.bid_amount == ctx.auction_round.highest_bid
            &&& !post.winner_authorization.consumed
            &&& close_rejection(post, later_slot) == Some(AxisAuctionError::AuctionNotOpen)
            &&& submit_bid_rejection(bid, later_slot, amount) == Some(
                AxisAuctionError::AuctionNotOpen,
            )
        }),
{
}

/// Only the authorized highest bidder settles a closed round, with its exact
/// winning bid; the receipt holds the economics of the round's NAV snapshot,
/// which meet the market's minimum output and minimum improvement, and whose
/// revenue split adds up to the winning bid. A settled round cannot be settled
/// again.
pub proof fn lemma_settlement_is_final(ctx: ExecuteMockSettlement, current_slot: u64, later_slot: u64)
    requires
        settlement_rejection(ctx, current_slot) is None,
    ensures
        ({
            let post = settlement_post(ctx, current_slot);
            let receipt = post.settlement_receipt;
            let economics = economics_spec(settlement_input(ctx));
            &&& ctx.auction_round.status == AuctionRound::STATUS_CLOSED
            &&& ctx.winner == ctx.auction_round.highest_bidder
            &&& ctx.winner == ctx.winner_authorization.winner
            &&& economics is Ok
            &&& constraints_met(
                economics->Ok_0,
                ctx.market.min_settlement_out,
                ctx.market.min_improvement_bps,
            )
            &&& receipt.winner == ctx.auction_round.highest_bidder
            &&& receipt.winner_bid_amount == ctx.auction_round.highest_bid
            &&& receipt.auction_revenue == receipt.winner_bid_amount
            &&& receipt.protocol_revenue + receipt.creator_revenue == receipt.auction_revenue
            &&& receipt.pre_nav == ctx.auction_round.nav_snapshot
            &&& post.auction_round.status == AuctionRound::STATUS_SETTLED
            &&& post.winner_authorization.consumed
            &&& settlement_rejection(post, later_slot) == Some(AxisAuctionError::AuctionNotClosed)
        }),
{
    lemma_economics_identities(settlement_input(ctx));
}

/// Recording a payment adds exactly the receipt's protocol and creator revenue
/// to the two vaults, which together are the winning bid; a round's payment is
/// recorded at most once.
pub proof fn lemma_payment_recorded_once(ctx: ClaimOrRecordAuctionPayment)
    requires
        payment_rejection(ctx) is None,
    ensures
        ({
            let post = payment_post(ctx);
            &&& ctx.auction_round.status == AuctionRound::STATUS_SETTLED
            &&& post.protocol_revenue_vault.total_in == ctx.protocol_revenue_vault.total_in
                + ctx.settlement_receipt.protocol_revenue
            &&& post.creator_revenue_vault.total_in == ctx.creator_revenue_vault.total_in
                + ctx.settlement_receipt.creator_revenue
            &&& (post.protocol_revenue_vault.total_in - ctx.protocol_revenue_vault.total_in) + (
            post.creator_revenue_vault.total_in - ctx.creator_revenue_vault.total_in)
                == ctx.auction_round.highest_bid
            &&& post.auction_round.payment_recorded
            &&& payment_rejection(post) == Some(AxisAuctionError::PaymentAlreadyRecorded)
        }),
{
}

/// A receipt written by a settlement passes every check that the payment
/// record makes of a receipt against its round (it names the round's highest
/// bidder and winning bid, its revenue is that bid, and its split adds up): a
/// record of a freshly settled round with the configured vaults can only be
/// refused for a vault that is not the expected one or a vault total that
/// would overflow.
pub proof fn lemma_settled_receipt_is_payable(
    settle: ExecuteMockSettlement,
    current_slot: u64,
    record: ClaimOrRecordAuctionPayment,
)
    requires
        settlement_rejection(settle, current_slot) is None,
        record.auction_round == settlement_post(settle, current_slot).auction_round,
        record.settlement_receipt == settlement_post(settle, current_slot).settlement_receipt,
        record.market_key == settle.market_key,
        record.auction_round_key == settle.auction_round_key,
        record.protocol_revenue_vault_key == record.config.protocol_revenue_vault,
        record.creator_revenue_vault_key == record.market.creator_revenue_vault,
    ensures
        !settle.auction_round.payment_recorded && payment_rejection(record) is Some
            ==> payment_rejection(record) == Some(
            AxisAuctionError::WrongRevenueVault,
        ) || payment_rejection(record) == Some(AxisAuctionError::MathOverflow),
{
    lemma_economics_identities(settlement_input(settle));
}

} // verus!

verus! {

// ---------------------------------------------------------------------------
// Laws over sequences of steps
// ---------------------------------------------------------------------------

/// The accounts after the `i`-th opening of a sequence of round openings, each
/// given with its slot and duration.
pub open spec fn opening_post(openings: Seq<(OpenAuctionRound, u64, u64)>, i: int) -> OpenAuctionRound {
    open_round_post(openings[i].0, openings[i].1, openings[i].2)
}

/// Every opening is accepted, and each opening after the first sees the market
/// as the previous opening left it.
pub open spec fn accepted_opening_chain(openings: Seq<(OpenAuctionRound, u64, u64)>) -> bool {
    &&& forall|i: int|
        0 <= i < openings.len() ==> #[trigger] open_round_rejection(
            openings[i].0,
            openings[i].1,
            openings[i].2,
        ) is None
    &&& forall|i: int|
        0 <= i < openings.len() - 1 ==> openings[i + 1].0.market == #[trigger] opening_post(
            openings,
            i,
        ).market
}

/// After k accepted openings of one market, the rounds are numbered
/// consecutively from the market's initial round counter (0 for a new market:
/// rounds 0..k-1) and the counter has advanced by k.
pub proof fn lemma_rounds_numbered_consecutively(openings: Seq<(OpenAuctionRound, u64, u64)>)
    requires
        openings.len() > 0,
        accepted_opening_chain(openings),
    ensures
        forall|i: int|
            0 <= i < openings.len() ==> #[trigger] opening_post(openings, i).auction_round.round_index
                == openings[0].0.market.round_counter + i,
        opening_post(openings, openings.len() - 1).market.round_counter
            == openings[0].0.market.round_counter + openings.len(),
    decreases openings.len(),
{
    let n = openings.len();
    let last = n - 1;
    assert(open_round_rejection(openings[last].0, openings[last].1, openings[last].2) is None);
    if n > 1 {
        let prefix = openings.drop_last();
        assert forall|i: int| 0 <= i < prefix.len() implies #[trigger] opening_post(prefix, i)
            == opening_post(openings, i) by {
            assert(prefix[i] == openings[i]);
        }
        assert forall|i: int| 0 <= i < prefix.len() implies #[trigger] open_round_rejection(
            prefix[i].0,
            prefix[i].1,
            prefix[i].2,
        ) is None by {
            assert(prefix[i] == openings[i]);
            assert(open_round_rejection(openings[i].0, openings[i].1, openings[i].2) is None);
        }
        assert forall|i: int| 0 <= i < prefix.len() - 1 implies prefix[i + 1].0.market
            == #[trigger] opening_post(prefix, i).market by {
            assert(prefix[i + 1] == openings[i + 1]);
            assert(opening_post(prefix, i) == opening_post(openings, i));
        }
        lemma_rounds_numbered_consecutively(prefix);
        assert(prefix[0] == openings[0]);
        assert(opening_post(prefix, last - 1) == opening_post(openings, last - 1));
        assert(openings[last].0.market == opening_post(openings, last - 1).market);
        assert forall|i: int| 0 <= i < n implies #[trigger] opening_post(
            openings,
            i,
        ).auction_round.round_index == openings[0].0.market.round_counter + i by {
            if i < last {
                assert(opening_post(prefix, i) == opening_post(openings, i));
            }
        }
    }
}

/// The accounts after the `i`-th bid of a sequence of bids, each given with its
/// slot and amount.
pub open spec fn bid_post(bids: Seq<(SubmitBid, u64, u64)>, i: int) -> SubmitBid {
    submit_bid_post(bids[i].0, bids[i].1, bids[i].2)
}

/// Every bid is accepted, and each bid after the first sees the round as the
/// previous bid left it.
pub open spec fn accepted_bid_chain(bids: Seq<(SubmitBid, u64, u64)>) -> bool {
    &&& forall|i: int|
        0 <= i < bids.len() ==> #[trigger] submit_bid_rejection(bids[i].0, bids[i].1, bids[i].2)
            is None
    &&& forall|i: int|
        0 <= i < bids.len() - 1 ==> bids[i + 1].0.auction_round == #[trigger] bid_post(
            bids,
            i,
        ).auction_round
}

/// In a sequence of accepted bids on one round, no bid exceeds the last one,
/// which is the round's highest bid, placed by the last bidder.
pub proof fn lemma_last_accepted_bid_is_highest(bids: Seq<(SubmitBid, u64, u64)>)
    requires
        bids.len() > 0,
        accepted_bid_chain(bids),
    ensures
        forall|i: int| 0 <= i < bids.len() ==> #[trigger] bids[i].2 <= bids[bids.len() - 1].2,
        bid_post(bids, bids.len() - 1).auction_round.highest_bid == bids[bids.len() - 1].2,
        bid_post(bids, bids.len() - 1).auction_round.highest_bidder == bids[bids.len() - 1].0.bidder,
    decreases bids.len(),
{
    let n = bids.len();
    let last = n - 1;
    assert(submit_bid_rejection(bids[last].0, bids[last].1, bids[last].2) is None);
    if n > 1 {
        let prefix = bids.drop_last();
        assert forall|i: int| 0 <= i < prefix.len() implies #[trigger] bid_post(prefix, i)
            == bid_post(bids, i) by {
            assert(prefix[i] == bids[i]);
        }
        assert forall|i: int| 0 <= i < prefix.len() implies #[trigger] submit_bid_rejection(
            prefix[i].0,
            prefix[i].1,
            prefix[i].2,
        ) is None by {
            assert(prefix[i] == bids[i]);
            assert(submit_bid_rejection(bids[i].0, bids[i].1, bids[i].2) is None);
        }
        assert forall|i: int| 0 <= i < prefix.len() - 1 implies prefix[i + 1].0.auction_round
            == #[trigger] bid_post(prefix, i).auction_round by {
            assert(prefix[i + 1] == bids[i + 1]);
            assert(bid_post(prefix, i) == bid_post(bids, i));
        }
        lemma_last_accepted_bid_is_highest(prefix);
        // The last bid raises the highest bid that the previous bid left.
        assert(bid_post(prefix, last - 1) == bid_post(bids, last - 1));
        assert(bids[last].0.auction_round == bid_post(bids, last - 1).auction_round);
        let ctx = bids[last].0;
        lemma_next_bid_floor_raises(ctx.auction_round.highest_bid, ctx.config.min_improvement_bps);
        assert(bids[last - 1].2 <= bids[last].2);
        assert forall|i: int| 0 <= i < n implies #[trigger] bids[i].2 <= bids[n - 1].2 by {
            if i < last {
                assert(prefix[i] == bids[i]);
                assert(prefix[prefix.len() - 1] == bids[last - 1]);
            }
        }
    }
}

/// After a sequence of accepted bids on a round, closing the round authorizes
/// the last accepted bid, which is the highest of them all, and its bidder.
pub proof fn lemma_winner_is_last_highest_bid(
    bids: Seq<(SubmitBid, u64, u64)>,
    close: CloseAuctionSelectWinner,
    close_slot: u64,
)
    requires
        bids.len() > 0,
        accepted_bid_chain(bids),
        close.auction_round == bid_post(bids, bids.len() - 1).auction_round,
        close_rejection(close, close_slot) is None,
    ensures
        close_post(close, close_slot).winner_authorization.bid_amount == bids[bids.len() - 1].2,
        close_post(close, close_slot).winner_authorization.winner == bids[bids.len()
            - 1].0.bidder,
        forall|i: int|
            0 <= i < bids.len() ==> #[trigger] bids[i].2 <= close_post(
                close,
                close_slot,
            ).winner_authorization.bid_amount,
{
    lemma_last_accepted_bid_is_highest(bids);
}

/// The protocol shares of the receipts of a sequence of payment records.
pub open spec fn protocol_shares(records: Seq<ClaimOrRecordAuctionPayment>) -> int
    decreases records.len(),
{
    if records.len() == 0 {
        0
    } else {
        protocol_shares(records.drop_last()) + records.last().settlement_receipt.protocol_revenue
    }
}

/// The creator shares of the receipts of a sequence of payment records.
pub open spec fn creator_shares(records: Seq<ClaimOrRecordAuctionPayment>) -> int
    decreases records.len(),
{
    if records.len() == 0 {
        0
    } else {
        creator_shares(records.drop_last()) + records.last().settlement_receipt.creator_revenue
    }
}

/// The winning bids of the rounds of a sequence of payment records.
pub open spec fn winning_bids(records: Seq<ClaimOrRecordAuctionPayment>) -> int
    decreases records.len(),
{
    if records.len() == 0 {
        0
    } else {
        winning_bids(records.drop_last()) + records.last().auction_round.highest_bid
    }
}

/// Every record is accepted, and each record after the first sees the two
/// vaults as the previous record left them.
pub open spec fn accepted_payment_chain(records: Seq<ClaimOrRecordAuctionPayment>) -> bool {
    &&& forall|i: int| 0 <= i < records.len() ==> #[trigger] payment_rejection(records[i]) is None
    &&& forall|i: int|
        0 <= i < records.len() - 1 ==> {
            &&& records[i + 1].protocol_revenue_vault == #[trigger] payment_post(
                records[i],
            ).protocol_revenue_vault
            &&& records[i + 1].creator_revenue_vault == payment_post(records[i]).creator_revenue_vault
        }
}

/// Across the payment records of several settled rounds, each vault's total
/// grows by exactly the sum of its receipt shares (from zero, for new vaults,
/// it is that sum), and the two sums add up to the rounds' winning bids.
pub proof fn lemma_vault_totals_sum_receipt_shares(records: Seq<ClaimOrRecordAuctionPayment>)
    requires
        records.len() > 0,
        accepted_payment_chain(records),
    ensures
        payment_post(records.last()).protocol_revenue_vault.total_in
            == records[0].protocol_revenue_vault.total_in + protocol_shares(records),
        payment_post(records.last()).creator_revenue_vault.total_in
            == records[0].creator_revenue_vault.total_in + creator_shares(records),
        protocol_shares(records) + creator_shares(records) == winning_bids(records),
    decreases records.len(),
{
    let n = records.len();
    let last = records.last();
    assert(payment_rejection(records[n - 1]) is None);
    lemma_payment_recorded_once(last);
    let prefix = records.drop_last();
    assert(protocol_shares(records) == protocol_shares(prefix)
        + last.settlement_receipt.protocol_revenue);
    assert(creator_shares(records) == creator_shares(prefix) + last.settlement_receipt.creator_revenue);
    assert(winning_bids(records) == winning_bids(prefix) + last.auction_round.highest_bid);
    if n > 1 {
        assert forall|i: int| 0 <= i < prefix.len() implies #[trigger] payment_rejection(
            prefix[i],
        ) is None by {
            assert(prefix[i] == records[i]);
            assert(payment_rejection(records[i]) is None);
        }
        assert forall|i: int| 0 <= i < prefix.len() - 1 implies {
            &&& prefix[i + 1].protocol_revenue_vault == #[trigger] payment_post(
                prefix[i],
            ).protocol_revenue_vault
            &&& prefix[i + 1].creator_revenue_vault == payment_post(prefix[i]).creator_revenue_vault
        } by {
            assert(prefix[i] == records[i]);
            assert(prefix[i + 1] == records[i + 1]);
            assert(payment_post(records[i]).protocol_revenue_vault == records[i
                + 1].protocol_revenue_vault);
        }
        lemma_vault_totals_sum_receipt_shares(prefix);
        assert(prefix[0] == records[0]);
        assert(prefix.last() == records[n - 2]);
        assert(payment_post(records[n - 2]).protocol_revenue_vault == records[n
            - 1].protocol_revenue_vault);
        assert(last.protocol_revenue_vault == payment_post(prefix.last()).protocol_revenue_vault);
        assert(last.creator_revenue_vault == payment_post(prefix.last()).creator_revenue_vault);
    } else {
        assert(prefix.len() == 0);
        assert(protocol_shares(prefix) == 0);
        assert(creator_shares(prefix) == 0);
        assert(winning_bids(prefix) == 0);
        assert(records[0] == last);
    }
}

} // verus!

verus! {

/// The receipt of an accepted settlement records the settlement as the
/// economics document defines it, on the market's data, the round's NAV
/// snapshot, the authorized bid and the configured fee:
/// - it names the round, the market, the winner, the slot, and copies the
///   inputs (the NAV snapshot as pre_nav);
/// - the starting gap, the settlement cost and the settlement output are
///   `batch * |target - snapshot|`, `batch * |target - pool|` and
///   `batch * pool`, each divided by 1e6 and rounded down;
/// - the closed gap, the cost reduction against the market's baseline cost, the
///   revenue split of the winning bid and the benefits follow from them, and
///   the improvement is the closed share of the starting gap in bps, rounded
///   down;
/// - the output and the improvement meet the market's minimums;
/// and the emitted event reports exactly the receipt.
pub proof fn lemma_receipt_records_the_settlement(ctx: ExecuteMockSettlement, current_slot: u64)
    requires
        settlement_rejection(ctx, current_slot) is None,
    ensures
        ({
            let post = settlement_post(ctx, current_slot);
            let r = post.settlement_receipt;
            let event = settlement_event(post.settlement_receipt_key, r);
            let economics = economics_spec(settlement_input(ctx))->Ok_0;
            let batch = ctx.market.batch_size as int;
            let target = ctx.market.target_nav as int;
            let snapshot = ctx.auction_round.nav_snapshot as int;
            let pool = ctx.market.mock_pool_price as int;
            let bid = ctx.winner_authorization.bid_amount as int;
            let gap = if target >= snapshot {
                target - snapshot
            } else {
                snapshot - target
            };
            let residual = if target >= pool {
                target - pool
            } else {
                pool - target
            };
            &&& r.round == ctx.auction_round_key
            &&& r.market == ctx.market_key
            &&& r.winner == ctx.winner
            &&& r.pre_nav == ctx.auction_round.nav_snapshot
            &&& r.target_nav == ctx.market.target_nav
            &&& r.mock_pool_price == ctx.market.mock_pool_price
            &&& r.batch_size == ctx.market.batch_size
            &&& r.expected_cost_without_auction == ctx.market.expected_cost_without_auction
            &&& r.winner_bid_amount == ctx.winner_authorization.bid_amount
            &&& r.settled_slot == current_slot
            &&& rounds_down_to(r.starting_gap_value as int, batch * gap, 1_000_000)
            &&& rounds_down_to(r.settlement_cost as int, batch * residual, 1_000_000)
            &&& rounds_down_to(r.settlement_out as int, batch * pool, 1_000_000)
            &&& r.gap_closed_value == r.starting_gap_value - r.settlement_cost
            &&& r.gross_cost_reduction == ctx.market.expected_cost_without_auction
                - r.settlement_cost
            &&& r.auction_revenue == bid
            &&& rounds_down_to(
                r.protocol_revenue as int,
                bid * ctx.config.protocol_fee_bps,
                10_000,
            )
            &&& r.creator_revenue == bid - r.protocol_revenue
            &&& r.total_value_recaptured == r.gross_cost_reduction + bid
            &&& r.net_protocol_benefit == r.gross_cost_reduction + r.protocol_revenue
            &&& r.net_creator_benefit == r.creator_revenue
            &&& r.starting_gap_value == 0 ==> r.improvement_bps == 0
            &&& r.starting_gap_value > 0 ==> rounds_down_to(
                r.improvement_bps as int,
                r.gap_closed_value * 10_000,
                r.starting_gap_value as int,
            )
            &&& r.settlement_out >= ctx.market.min_settlement_out
            &&& r.improvement_bps >= ctx.market.min_improvement_bps
            &&& r.starting_gap_value == economics.starting_gap_value
            &&& r.settlement_cost == economics.settlement_cost
            &&& r.settlement_out == economics.settlement_out
            &&& r.gap_closed_value == economics.gap_closed_value
            &&& r.gross_cost_reduction == economics.gross_cost_reduction
            &&& r.auction_revenue == economics.auction_revenue
            &&& r.total_value_recaptured == economics.total_value_recaptured
            &&& r.protocol_revenue == economics.protocol_revenue
            &&& r.creator_revenue == economics.creator_revenue
            &&& r.net_protocol_benefit == economics.net_protocol_benefit
            &&& r.net_creator_benefit == economics.net_creator_benefit
            &&& r.improvement_bps == economics.improvement_bps
            &&& event.receipt == post.settlement_receipt_key
            &&& event.round == r.round
            &&& event.market == r.market
            &&& event.winner == r.winner
            &&& event.pre_nav == r.pre_nav
            &&& event.settlement_out == r.settlement_out
            &&& event.settlement_cost == r.settlement_cost
            &&& event.starting_gap_value == r.starting_gap_value
            &&& event.gap_closed_value == r.gap_closed_value
            &&& event.gross_cost_reduction == r.gross_cost_reduction
            &&& event.auction_revenue == r.auction_revenue
            &&& event.total_value_recaptured == r.total_value_recaptured
            &&& event.protocol_revenue == r.protocol_revenue
            &&& event.creator_revenue == r.creator_revenue
            &&& event.net_protocol_benefit == r.net_protocol_benefit
            &&& event.net_creator_benefit == r.net_creator_benefit
            &&& event.improvement_bps == r.improvement_bps
            &&& event.winner_bid_amount == r.winner_bid_amount
            &&& event.settled_slot == r.settled_slot
        }),
{
    lemma_economics_formulas(settlement_input(ctx));
}

} // verus!

verus! {

/// `amount * 10_000 >= n` exactly when `amount` reaches `n / 10_000` rounded up.
proof fn lemma_reaches_rounded_up(amount: int, n: int)
    requires
        n >= 0,
    ensures
        amount >= (n + 9_999) / 10_000 <==> amount * 10_000 >= n,
{
    crate::math::lemma_division_rounds_down(n + 9_999, 10_000);
}

/// Exactly the markets whose kind is the batch clearing right, with a positive
/// batch, a positive staleness bound and a minimum improvement of at most 100%
/// are created.
pub proof fn lemma_market_acceptance(
    market_kind: u8,
    batch_size: u64,
    max_nav_staleness_slots: u64,
    min_improvement_bps: u16,
)
    ensures
        create_market_rejection(market_kind, batch_size, max_nav_staleness_slots, min_improvement_bps)
            is None <==> (market_kind == 0 && batch_size > 0 && max_nav_staleness_slots > 0
            && min_improvement_bps <= 10_000),
{
}

/// Exactly these openings are accepted: a positive duration, an opener who is
/// the market creator or the configuration authority, a NAV updated no later
/// than now and at most the staleness bound ago, a close slot and a next round
/// counter that fit 64 bits.
pub proof fn lemma_opening_acceptance(ctx: OpenAuctionRound, current_slot: u64, duration_slots: u64)
    ensures
        open_round_rejection(ctx, current_slot, duration_slots) is None <==> ({
            &&& duration_slots > 0
            &&& (ctx.opener == ctx.market.creator || ctx.opener == ctx.config.authority)
            &&& ctx.market.nav_last_update_slot <= current_slot
            &&& current_slot - ctx.market.nav_last_update_slot <= ctx.market.max_nav_staleness_slots
            &&& current_slot + duration_slots <= u64::MAX
            &&& ctx.market.round_counter < u64::MAX
        }),
{
}

/// Exactly these bids are accepted, whoever holds the highest bid: on an open
/// round of the supplied market before its close slot, with a valid configured
/// improvement, at least the configured minimum bid, at least the highest bid
/// raised by the required improvement (`amount * 10_000 >= highest * (10_000 +
/// bps)`, or any amount on a round without bids), and either from a bidder new
/// to the round (while the bid count can grow) or from the owner of the bid
/// record of this round.
pub proof fn lemma_bid_acceptance(ctx: SubmitBid, current_slot: u64, amount: u64)
    ensures
        submit_bid_rejection(ctx, current_slot, amount) is None <==> ({
            let round = ctx.auction_round;
            let highest = round.highest_bid as int;
            let bps = ctx.config.min_improvement_bps as int;
            &&& round.market == ctx.market_key
            &&& round.status == AuctionRound::STATUS_OPEN
            &&& current_slot < round.close_after_slot
            &&& bps <= 10_000
            &&& amount >= ctx.config.min_bid_amount
            &&& (highest == 0 || amount * 10_000 >= highest * (10_000 + bps))
            &&& if ctx.bid_record.round.is_zero() {
                round.bid_count < u32::MAX
            } else {
                ctx.bid_record.round == ctx.auction_round_key && ctx.bid_record.bidder == ctx.bidder
            }
        }),
{
    let highest = ctx.auction_round.highest_bid as int;
    let bps = ctx.config.min_improvement_bps as int;
    if highest > 0 {
        let n = highest * (10_000 + bps);
        assert(n >= 0) by (nonlinear_arith)
            requires
                n == highest * (10_000 + bps),
                highest > 0,
                bps >= 0,
        ;
        lemma_reaches_rounded_up(amount as int, n);
        assert(next_bid_floor(ctx.auction_round.highest_bid, ctx.config.min_improvement_bps) == (n
            + 9_999) / 10_000);
        // A floor beyond 64 bits is beyond every amount.
        assert(amount < (n + 9_999) / 10_000 || (n + 9_999) / 10_000 <= u64::MAX);
    }
}

/// Exactly these closings are accepted: a round of the supplied market that is
/// open, whose bidding window has elapsed, and that has a positive highest bid
/// from a bidder.
pub proof fn lemma_close_acceptance(ctx: CloseAuctionSelectWinner, current_slot: u64)
    ensures
        close_rejection(ctx, current_slot) is None <==> ({
            &&& ctx.auction_round.market == ctx.market_key
            &&& ctx.auction_round.status == AuctionRound::STATUS_OPEN
            &&& current_slot >= ctx.auction_round.close_after_slot
            &&& ctx.auction_round.highest_bid > 0
            &&& !ctx.auction_round.highest_bidder.is_zero()
        }),
        close_rejection(ctx, current_slot) is None ==> ({
            let auth = close_post(ctx, current_slot).winner_authorization;
            &&& auth.round == ctx.auction_round_key
            &&& auth.market == ctx.market_key
            &&& auth.winner == ctx.auction_round.highest_bidder
            &&& auth.bid_amount == ctx.auction_round.highest_bid
            &&& auth.issued_slot == current_slot
            &&& !auth.consumed
        }),
{
}

/// Exactly these settlements are accepted: a closed round of the supplied
/// market, an unconsumed authorization of this round and market naming the
/// signer, who is the round's highest bidder, for the round's highest bid; a
/// fresh market NAV; economics that succeed and meet the market's minimum
/// output and minimum improvement.
pub proof fn lemma_settlement_acceptance(ctx: ExecuteMockSettlement, current_slot: u64)
    ensures
        settlement_rejection(ctx, current_slot) is None <==> ({
            let round = ctx.auction_round;
            let auth = ctx.winner_authorization;
            let economics = economics_spec(settlement_input(ctx));
            &&& round.market == ctx.market_key
            &&& round.status == AuctionRound::STATUS_CLOSED
            &&& !auth.consumed
            &&& auth.winner == ctx.winner
            &&& auth.round == ctx.auction_round_key
            &&& auth.market == ctx.market_key
            &&& round.highest_bidder == ctx.winner
            &&& round.highest_bid == auth.bid_amount
            &&& ctx.market.nav_last_update_slot <= current_slot
            &&& current_slot - ctx.market.nav_last_update_slot <= ctx.market.max_nav_staleness_slots
            &&& economics is Ok
            &&& economics->Ok_0.settlement_out >= ctx.market.min_settlement_out
            &&& economics->Ok_0.improvement_bps >= ctx.market.min_improvement_bps
        }),
{
}

/// Exactly these payment records are accepted, for any market (its creator need
/// not be the configuration authority): the round, receipt and vault accounts
/// belong together (the round and receipt to the supplied market and round, the
/// configured protocol vault owned by the configuration authority, the
/// market's creator vault owned by the market creator, both of the market's
/// mint); the round is settled and not yet recorded; the receipt names the
/// round's highest bidder and bid, its revenue is that bid and its shares add
/// up to it; and both new vault totals fit 64 bits.
pub proof fn lemma_payment_acceptance(ctx: ClaimOrRecordAuctionPayment)
    ensures
        payment_rejection(ctx) is None <==> ({
            let round = ctx.auction_round;
            let receipt = ctx.settlement_receipt;
            let protocol_vault = ctx.protocol_revenue_vault;
            let creator_vault = ctx.creator_revenue_vault;
            &&& round.market == ctx.market_key
            &&& receipt.round == ctx.auction_round_key
            &&& receipt.market == ctx.market_key
            &&& ctx.protocol_revenue_vault_key == ctx.config.protocol_revenue_vault
            &&& ctx.creator_revenue_vault_key == ctx.market.creator_revenue_vault
            &&& round.status == AuctionRound::STATUS_SETTLED
            &&& !round.payment_recorded
            &&& receipt.winner == round.highest_bidder
            &&& receipt.winner_bid_amount == round.highest_bid
            &&& receipt.auction_revenue == receipt.winner_bid_amount
            &&& receipt.protocol_revenue + receipt.creator_revenue == receipt.auction_revenue
            &&& protocol_vault.authority == ctx.config.authority
            &&& creator_vault.authority == ctx.market.creator
            &&& protocol_vault.usdc_mint == ctx.market.usdc_mint
            &&& creator_vault.usdc_mint == ctx.market.usdc_mint
            &&& protocol_vault.total_in + receipt.protocol_revenue <= u64::MAX
            &&& creator_vault.total_in + receipt.creator_revenue <= u64::MAX
        }),
{
}

} // verus!

verus! {

/// An initialized configuration holds exactly the given parameters and the
/// signer as authority, and its protocol vault belongs to the signer, is of the
/// given mint, has no token account and has recorded nothing.
pub proof fn lemma_config_records_its_parameters(
    ctx: InitializeConfig,
    usdc_mint: AccountKey,
    protocol_fee_bps: u16,
    default_auction_duration_slots: u64,
    min_bid_amount: u64,
    min_improvement_bps: u16,
)
    ensures
        ({
            let config = initialized_config(
                ctx,
                protocol_fee_bps,
                default_auction_duration_slots,
                min_bid_amount,
                min_improvement_bps,
            );
            let vault = initialized_protocol_vault(ctx, usdc_mint);
            &&& config.authority == ctx.authority
            &&& config.protocol_revenue_vault == ctx.protocol_revenue_vault
            &&& config.protocol_fee_bps == protocol_fee_bps
            &&& config.default_auction_duration_slots == default_auction_duration_slots
            &&& config.min_bid_amount == min_bid_amount
            &&& config.min_improvement_bps == min_improvement_bps
            &&& vault.authority == ctx.authority
            &&& vault.usdc_mint == usdc_mint
            &&& vault.token_account.is_zero()
            &&& vault.total_in == 0
        }),
{
    crate::key::lemma_zero_is_unique(AccountKey::zero());
}

/// An economics overflow is reported as a math overflow, and an invalid fee as
/// an invalid fee.
pub proof fn lemma_math_errors_keep_their_cause()
    ensures
        math_error_code(MathError::Overflow) == AxisAuctionError::MathOverflow,
        math_error_code(MathError::InvalidProtocolFeeBps) == AxisAuctionError::InvalidProtocolFeeBps,
{
}

/// Each step's event reports what the step did: the round opened (its index is
/// the market's old counter, its window and snapshot), the bid (its bidder,
/// amount, slot and the round's bid count afterwards), the winner authorized
/// (the highest bidder and bid, at the closing slot), and the payment recorded
/// (the receipt's revenue and shares, into the two vaults).
pub proof fn lemma_events_report_the_step(
    open: OpenAuctionRound,
    bid: SubmitBid,
    close: CloseAuctionSelectWinner,
    record: ClaimOrRecordAuctionPayment,
    slot: u64,
    duration_slots: u64,
    amount: u64,
)
    requires
        open_round_rejection(open, slot, duration_slots) is None,
        submit_bid_rejection(bid, slot, amount) is None,
        close_rejection(close, slot) is None,
        payment_rejection(record) is None,
    ensures
        ({
            let opened = open_round_event(open, slot, duration_slots);
            let round = open_round_post(open, slot, duration_slots).auction_round;
            &&& opened.market == open.market_key
            &&& opened.round == open.auction_round_key
            &&& opened.round_index == open.market.round_counter
            &&& opened.round_index == round.round_index
            &&& opened.open_slot == slot
            &&& opened.close_after_slot == round.close_after_slot
            &&& opened.nav_snapshot == open.market.pre_nav
            &&& opened.nav_snapshot_slot == slot
        }),
        ({
            let placed = submit_bid_event(bid, slot, amount);
            let post = submit_bid_post(bid, slot, amount);
            &&& placed.round == bid.auction_round_key
            &&& placed.bidder == bid.bidder
            &&& placed.amount == amount
            &&& placed.slot == slot
            &&& placed.bid_count == post.auction_round.bid_count
            &&& post.bid_record.slot == slot
            &&& post.auction_round.market == bid.auction_round.market
            &&& post.auction_round.nav_snapshot == bid.auction_round.nav_snapshot
        }),
        ({
            let (closed, authorized) = close_events(close, slot);
            &&& closed.round == close.auction_round_key
            &&& closed.winner == close.auction_round.highest_bidder
            &&& closed.winning_bid == close.auction_round.highest_bid
            &&& closed.close_slot == slot
            &&& authorized.round == close.auction_round_key
            &&& authorized.market == close.market_key
            &&& authorized.winner == close.auction_round.highest_bidder
            &&& authorized.bid_amount == close.auction_round.highest_bid
            &&& authorized.issued_slot == slot
        }),
        ({
            let recorded = payment_event(record);
            &&& recorded.round == record.auction_round_key
            &&& recorded.market == record.settlement_receipt.market
            &&& recorded.winner == record.settlement_receipt.winner
            &&& recorded.auction_revenue == record.settlement_receipt.auction_revenue
            &&& recorded.protocol_revenue == record.settlement_receipt.protocol_revenue
            &&& recorded.creator_revenue == record.settlement_receipt.creator_revenue
            &&& recorded.protocol_revenue + recorded.creator_revenue == record.auction_round.highest_bid
            &&& recorded.protocol_revenue_vault == record.protocol_revenue_vault_key
            &&& recorded.creator_revenue_vault == record.creator_revenue_vault_key
        }),
{
}

} // verus!
