use axis_auction::constants::MARKET_KIND_BATCH_CLEARING_RIGHT;
use axis_auction::errors::AxisAuctionError;
use axis_auction::instructions::claim_or_record_auction_payment::{
    claim_or_record_auction_payment, ClaimOrRecordAuctionPayment,
};
use axis_auction::instructions::close_auction_select_winner::{
    close_auction_select_winner, CloseAuctionSelectWinner,
};
use axis_auction::instructions::create_mock_market::{create_mock_market, CreateMockMarket};
use axis_auction::instructions::execute_mock_settlement::{
    execute_mock_settlement, ExecuteMockSettlement,
};
use axis_auction::instructions::initialize_config::{initialize_config, InitializeConfig};
use axis_auction::instructions::open_auction_round::{open_auction_round, OpenAuctionRound};
use axis_auction::instructions::submit_bid::{submit_bid, SubmitBid};
use axis_auction::key::AccountKey;
use axis_auction::state::{
    AuctionConfig, AuctionRound, BidRecord, CreatorRevenueVault, MockDtfMarket,
    ProtocolRevenueVault, SettlementReceipt, WinnerAuthorization,
};

const MARKET_ID: u64 = 42;
const BATCH_SIZE: u64 = 1_000_000_000;
const PRE_NAV: u64 = 1_000_000;
const TARGET_NAV: u64 = 1_050_000;
const MOCK_POOL_PRICE: u64 = 1_040_000;
const EXPECTED_COST_WITHOUT_AUCTION: u64 = 50_000_000;
const MAX_NAV_STALENESS_SLOTS: u64 = 10;
const MIN_SETTLEMENT_OUT: u64 = 1_000_000;
const MIN_IMPROVEMENT_BPS: u16 = 7_500;

fn key(byte: u8) -> AccountKey {
    AccountKey::new([byte; 32])
}

fn usdc_mint() -> AccountKey {
    key(7)
}

fn authority() -> AccountKey {
    key(1)
}

fn config_address() -> AccountKey {
    key(2)
}

fn protocol_vault_address() -> AccountKey {
    key(3)
}

fn market_address() -> AccountKey {
    key(4)
}

fn creator_vault_address() -> AccountKey {
    key(5)
}

fn round_address() -> AccountKey {
    key(6)
}

fn empty_round() -> AuctionRound {
    AuctionRound {
        market: AccountKey::default_key(),
        round_index: 0,
        status: 0,
        open_slot: 0,
        close_after_slot: 0,
        highest_bid: 0,
        highest_bidder: AccountKey::default_key(),
        bid_count: 0,
        nav_snapshot: 0,
        nav_snapshot_slot: 0,
        payment_recorded: false,
        bump: 0,
    }
}

fn empty_bid_record() -> BidRecord {
    BidRecord {
        round: AccountKey::default_key(),
        bidder: AccountKey::default_key(),
        amount: 0,
        slot: 0,
        bump: 0,
    }
}

fn empty_authorization() -> WinnerAuthorization {
    WinnerAuthorization {
        round: AccountKey::default_key(),
        market: AccountKey::default_key(),
        winner: AccountKey::default_key(),
        bid_amount: 0,
        issued_slot: 0,
        consumed: false,
        bump: 0,
    }
}

fn empty_receipt() -> SettlementReceipt {
    SettlementReceipt {
        round: AccountKey::default_key(),
        market: AccountKey::default_key(),
        winner: AccountKey::default_key(),
        pre_nav: 0,
        target_nav: 0,
        mock_pool_price: 0,
        batch_size: 0,
        expected_cost_without_auction: 0,
        starting_gap_value: 0,
        settlement_out: 0,
        settlement_cost: 0,
        winner_bid_amount: 0,
        auction_revenue: 0,
        gap_closed_value: 0,
        gross_cost_reduction: 0,
        total_value_recaptured: 0,
        protocol_revenue: 0,
        creator_revenue: 0,
        net_protocol_benefit: 0,
        net_creator_benefit: 0,
        improvement_bps: 0,
        settled_slot: 0,
        bump: 0,
    }
}

fn valid_config(protocol_fee_bps: u16) -> Result<(AuctionConfig, ProtocolRevenueVault), AxisAuctionError> {
    let ctx = InitializeConfig {
        authority: authority(),
        config: config_address(),
        config_bump: 254,
        protocol_revenue_vault: protocol_vault_address(),
        protocol_revenue_vault_bump: 253,
    };
    initialize_config(&ctx, usdc_mint(), protocol_fee_bps, 100, 1_000_000, MIN_IMPROVEMENT_BPS)
        .map(|(config, vault, _)| (config, vault))
}

fn market_with(
    market_kind: u8,
    batch_size: u64,
    max_nav_staleness_slots: u64,
    min_improvement_bps: u16,
    current_slot: u64,
) -> Result<(MockDtfMarket, CreatorRevenueVault), AxisAuctionError> {
    let ctx = CreateMockMarket {
        creator: authority(),
        market: market_address(),
        market_bump: 252,
        creator_revenue_vault: creator_vault_address(),
        creator_revenue_vault_bump: 251,
    };
    create_mock_market(
        &ctx,
        current_slot,
        MARKET_ID,
        market_kind,
        usdc_mint(),
        batch_size,
        PRE_NAV,
        TARGET_NAV,
        MOCK_POOL_PRICE,
        EXPECTED_COST_WITHOUT_AUCTION,
        max_nav_staleness_slots,
        MIN_SETTLEMENT_OUT,
        min_improvement_bps,
    )
    .map(|(market, vault, _)| (market, vault))
}

fn valid_market(max_nav_staleness_slots: u64, current_slot: u64) -> (MockDtfMarket, CreatorRevenueVault) {
    market_with(
        MARKET_KIND_BATCH_CLEARING_RIGHT,
        BATCH_SIZE,
        max_nav_staleness_slots,
        MIN_IMPROVEMENT_BPS,
        current_slot,
    )
    .unwrap()
}

fn opening(opener: AccountKey, config: AuctionConfig, market: MockDtfMarket) -> OpenAuctionRound {
    OpenAuctionRound {
        opener,
        config,
        market_key: market_address(),
        market,
        auction_round_key: round_address(),
        auction_round: empty_round(),
        auction_round_bump: 250,
    }
}

#[test]
fn initial_lifecycle_creates_expected_pdas_and_state() {
    let (config, protocol_vault) = valid_config(2_000).unwrap();
    assert_eq!(config.authority, authority());
    assert_eq!(config.protocol_revenue_vault, protocol_vault_address());
    assert_eq!(config.protocol_fee_bps, 2_000);
    assert_eq!(config.default_auction_duration_slots, 100);
    assert_eq!(config.min_bid_amount, 1_000_000);
    assert_eq!(config.min_improvement_bps, MIN_IMPROVEMENT_BPS);
    assert_eq!(protocol_vault.authority, authority());
    assert_eq!(protocol_vault.usdc_mint, usdc_mint());
    assert_eq!(protocol_vault.token_account, AccountKey::default_key());
    assert_eq!(protocol_vault.total_in, 0);

    let (market_state, creator_vault) = valid_market(MAX_NAV_STALENESS_SLOTS, 1);
    assert_eq!(market_state.market_id, MARKET_ID);
    assert_eq!(market_state.market_kind, MARKET_KIND_BATCH_CLEARING_RIGHT);
    assert_eq!(market_state.creator, authority());
    assert_eq!(market_state.creator_revenue_vault, creator_vault_address());
    assert_eq!(market_state.usdc_mint, usdc_mint());
    assert_eq!(market_state.batch_size, BATCH_SIZE);
    assert_eq!(market_state.pre_nav, PRE_NAV);
    assert_eq!(market_state.target_nav, TARGET_NAV);
    assert_eq!(market_state.mock_pool_price, MOCK_POOL_PRICE);
    assert_eq!(
        market_state.expected_cost_without_auction,
        EXPECTED_COST_WITHOUT_AUCTION
    );
    assert_eq!(market_state.max_nav_staleness_slots, MAX_NAV_STALENESS_SLOTS);
    assert_eq!(market_state.min_settlement_out, MIN_SETTLEMENT_OUT);
    assert_eq!(market_state.min_improvement_bps, MIN_IMPROVEMENT_BPS);
    assert_eq!(market_state.round_counter, 0);
    assert_eq!(creator_vault.authority, authority());
    assert_eq!(creator_vault.usdc_mint, usdc_mint());
    assert_eq!(creator_vault.token_account, AccountKey::default_key());
    assert_eq!(creator_vault.total_in, 0);

    let duration_slots = 25;
    let mut ctx = opening(authority(), config, market_state);
    open_auction_round(&mut ctx, 3, duration_slots).unwrap();

    let market_state = ctx.market;
    let round = ctx.auction_round;
    assert_eq!(market_state.round_counter, 1);
    assert_eq!(round.market, market_address());
    assert_eq!(round.round_index, 0);
    assert_eq!(round.status, AuctionRound::STATUS_OPEN);
    assert!(round.open_slot >= market_state.nav_last_update_slot);
    assert_eq!(round.close_after_slot, round.open_slot + duration_slots);
    assert_eq!(round.highest_bid, 0);
    assert_eq!(round.highest_bidder, AccountKey::default_key());
    assert_eq!(round.bid_count, 0);
    assert_eq!(round.nav_snapshot, PRE_NAV);
    assert_eq!(round.nav_snapshot_slot, round.open_slot);
    assert!(!round.payment_recorded);
}

#[test]
fn rejects_invalid_config_and_market_inputs() {
    assert_eq!(
        valid_config(10_001).unwrap_err(),
        AxisAuctionError::InvalidProtocolFeeBps
    );
    assert_eq!(
        market_with(
            MARKET_KIND_BATCH_CLEARING_RIGHT + 1,
            BATCH_SIZE,
            MAX_NAV_STALENESS_SLOTS,
            MIN_IMPROVEMENT_BPS,
            1
        )
        .unwrap_err(),
        AxisAuctionError::InvalidMarketKind
    );
    assert_eq!(
        market_with(
            MARKET_KIND_BATCH_CLEARING_RIGHT,
            0,
            MAX_NAV_STALENESS_SLOTS,
            MIN_IMPROVEMENT_BPS,
            1
        )
        .unwrap_err(),
        AxisAuctionError::InvalidBatchSize
    );
    assert_eq!(
        market_with(
            MARKET_KIND_BATCH_CLEARING_RIGHT,
            BATCH_SIZE,
            0,
            MIN_IMPROVEMENT_BPS,
            1
        )
        .unwrap_err(),
        AxisAuctionError::InvalidMaxNavStaleness
    );
    assert_eq!(
        market_with(
            MARKET_KIND_BATCH_CLEARING_RIGHT,
            BATCH_SIZE,
            MAX_NAV_STALENESS_SLOTS,
            10_001,
            1
        )
        .unwrap_err(),
        AxisAuctionError::InvalidMinImprovementBps
    );
}

#[test]
fn rejects_invalid_or_unauthorized_round_opening() {
    let (config, _) = valid_config(2_000).unwrap();
    let (market, _) = valid_market(1, 1);

    let mut ctx = opening(authority(), config, market);
    let before = ctx;
    assert_eq!(
        open_auction_round(&mut ctx, 1, 0).unwrap_err(),
        AxisAuctionError::InvalidAuctionDuration
    );
    assert_eq!(ctx, before);

    let mut ctx = opening(key(99), config, market);
    let before = ctx;
    assert_eq!(
        open_auction_round(&mut ctx, 1, 5).unwrap_err(),
        AxisAuctionError::Unauthorized
    );
    assert_eq!(ctx, before);

    let mut ctx = opening(authority(), config, market);
    let before = ctx;
    assert_eq!(
        open_auction_round(&mut ctx, 1_000, 5).unwrap_err(),
        AxisAuctionError::StaleMarketState
    );
    assert_eq!(ctx, before);
}

#[test]
fn round_opening_edge_cases() {
    let (config, _) = valid_config(2_000).unwrap();
    let (market, _) = valid_market(MAX_NAV_STALENESS_SLOTS, 100);

    // The configuration authority may open a round for someone else's market.
    let other_market = MockDtfMarket { creator: key(77), ..market };
    let mut ctx = opening(authority(), config, other_market);
    assert!(open_auction_round(&mut ctx, 100, 5).is_ok());

    // A NAV update that lies in the future counts as stale.
    let mut ctx = opening(authority(), config, market);
    assert_eq!(
        open_auction_round(&mut ctx, 99, 5).unwrap_err(),
        AxisAuctionError::StaleMarketState
    );

    // The staleness bound is inclusive.
    let mut ctx = opening(authority(), config, market);
    assert!(open_auction_round(&mut ctx, 110, 5).is_ok());

    // A close slot that does not fit 64 bits overflows.
    let mut ctx = opening(authority(), config, market);
    assert_eq!(
        open_auction_round(&mut ctx, 100, u64::MAX).unwrap_err(),
        AxisAuctionError::MathOverflow
    );

    // A market whose round counter is exhausted cannot open another round.
    let full_market = MockDtfMarket { round_counter: u64::MAX, ..market };
    let mut ctx = opening(authority(), config, full_market);
    let before = ctx;
    assert_eq!(
        open_auction_round(&mut ctx, 100, 5).unwrap_err(),
        AxisAuctionError::MathOverflow
    );
    assert_eq!(ctx, before);

    // Round indices follow the market's counter.
    let mut ctx = opening(authority(), config, market);
    let event = open_auction_round(&mut ctx, 100, 5).unwrap();
    assert_eq!(event.round_index, 0);
    let mut next = opening(authority(), config, ctx.market);
    let event = open_auction_round(&mut next, 101, 5).unwrap();
    assert_eq!(event.round_index, 1);
    assert_eq!(next.market.round_counter, 2);
    assert_eq!(next.auction_round.round_index, 1);
}

struct Auction {
    config: AuctionConfig,
    protocol_vault: ProtocolRevenueVault,
    market: MockDtfMarket,
    creator_vault: CreatorRevenueVault,
    round: AuctionRound,
}

/// Config, market (NAV updated at slot 10, fresh for 100 slots) and an open
/// round from slot 10 with bidding until slot 30.
fn open_auction() -> Auction {
    let (config, protocol_vault) = valid_config(2_000).unwrap();
    let (market, creator_vault) = valid_market(100, 10);
    let mut ctx = opening(authority(), config, market);
    open_auction_round(&mut ctx, 10, 20).unwrap();
    Auction {
        config,
        protocol_vault,
        market: ctx.market,
        creator_vault,
        round: ctx.auction_round,
    }
}

fn bid_context(auction: &Auction, bidder: AccountKey, record: BidRecord) -> SubmitBid {
    SubmitBid {
        bidder,
        config: auction.config,
        market_key: market_address(),
        auction_round_key: round_address(),
        auction_round: auction.round,
        bid_record: record,
        bid_record_bump: 249,
    }
}

fn place_bid(
    auction: &mut Auction,
    bidder: AccountKey,
    record: BidRecord,
    slot: u64,
    amount: u64,
) -> Result<BidRecord, AxisAuctionError> {
    let mut ctx = bid_context(auction, bidder, record);
    let before = ctx;
    match submit_bid(&mut ctx, slot, amount) {
        Ok(event) => {
            assert_eq!(event.amount, amount);
            assert_eq!(event.bid_count, ctx.auction_round.bid_count);
            auction.round = ctx.auction_round;
            Ok(ctx.bid_record)
        }
        Err(e) => {
            assert_eq!(ctx, before);
            Err(e)
        }
    }
}

fn close_context(auction: &Auction) -> CloseAuctionSelectWinner {
    CloseAuctionSelectWinner {
        closer: key(50),
        market_key: market_address(),
        auction_round_key: round_address(),
        auction_round: auction.round,
        winner_authorization_key: key(8),
        winner_authorization: empty_authorization(),
        winner_authorization_bump: 248,
    }
}

fn settle_context(
    auction: &Auction,
    winner: AccountKey,
    authorization: WinnerAuthorization,
) -> ExecuteMockSettlement {
    ExecuteMockSettlement {
        winner,
        config: auction.config,
        market_key: market_address(),
        market: auction.market,
        auction_round_key: round_address(),
        auction_round: auction.round,
        winner_authorization: authorization,
        settlement_receipt_key: key(9),
        settlement_receipt: empty_receipt(),
        settlement_receipt_bump: 247,
    }
}

fn record_context(auction: &Auction, receipt: SettlementReceipt) -> ClaimOrRecordAuctionPayment {
    ClaimOrRecordAuctionPayment {
        recorder: key(60),
        config: auction.config,
        market_key: market_address(),
        market: auction.market,
        auction_round_key: round_address(),
        auction_round: auction.round,
        settlement_receipt: receipt,
        protocol_revenue_vault_key: protocol_vault_address(),
        protocol_revenue_vault: auction.protocol_vault,
        creator_revenue_vault_key: creator_vault_address(),
        creator_revenue_vault: auction.creator_vault,
    }
}

#[test]
fn full_lifecycle_records_the_winning_bid_once() {
    let mut auction = open_auction();
    let alice = key(20);
    let bob = key(21);

    let alice_record = place_bid(&mut auction, alice, empty_bid_record(), 12, 2_000_000).unwrap();
    assert_eq!(auction.round.bid_count, 1);
    assert_eq!(auction.round.highest_bidder, alice);

    // Bob must improve by 75%: 2_000_000 * 1.75 = 3_500_000.
    assert_eq!(
        place_bid(&mut auction, bob, empty_bid_record(), 13, 3_499_999).unwrap_err(),
        AxisAuctionError::BidTooLow
    );
    let _bob_record = place_bid(&mut auction, bob, empty_bid_record(), 13, 3_500_000).unwrap();
    assert_eq!(auction.round.bid_count, 2);

    // Alice raises her own bid: the count does not grow.
    let alice_record = place_bid(&mut auction, alice, alice_record, 14, 6_125_000).unwrap();
    assert_eq!(alice_record.amount, 6_125_000);
    assert_eq!(auction.round.bid_count, 2);
    assert_eq!(auction.round.highest_bid, 6_125_000);
    assert_eq!(auction.round.highest_bidder, alice);

    // Closing before the window has elapsed is refused.
    let mut ctx = close_context(&auction);
    assert_eq!(
        close_auction_select_winner(&mut ctx, 29).unwrap_err(),
        AxisAuctionError::AuctionNotClosed
    );
    let mut ctx = close_context(&auction);
    let (closed, authorized) = close_auction_select_winner(&mut ctx, 30).unwrap();
    assert_eq!(closed.winner, alice);
    assert_eq!(closed.winning_bid, 6_125_000);
    assert_eq!(authorized.bid_amount, 6_125_000);
    assert_eq!(ctx.auction_round.status, AuctionRound::STATUS_CLOSED);
    auction.round = ctx.auction_round;
    let authorization = ctx.winner_authorization;
    assert_eq!(authorization.winner, alice);
    assert!(!authorization.consumed);

    // Closing twice or bidding after close is refused.
    let mut again = close_context(&auction);
    assert_eq!(
        close_auction_select_winner(&mut again, 31).unwrap_err(),
        AxisAuctionError::AuctionNotOpen
    );
    assert_eq!(
        place_bid(&mut auction, bob, empty_bid_record(), 31, 20_000_000).unwrap_err(),
        AxisAuctionError::AuctionNotOpen
    );

    // Only the winner settles.
    let mut ctx = settle_context(&auction, bob, authorization);
    assert_eq!(
        execute_mock_settlement(&mut ctx, 35).unwrap_err(),
        AxisAuctionError::Unauthorized
    );
    let mut ctx = settle_context(&auction, alice, authorization);
    let event = execute_mock_settlement(&mut ctx, 35).unwrap();
    assert_eq!(event.improvement_bps, 8_000);
    assert_eq!(event.auction_revenue, 6_125_000);
    assert_eq!(event.protocol_revenue, 1_225_000);
    assert_eq!(event.creator_revenue, 4_900_000);
    assert_eq!(event.receipt, key(9));
    assert_eq!(ctx.auction_round.status, AuctionRound::STATUS_SETTLED);
    assert!(ctx.winner_authorization.consumed);
    let receipt = ctx.settlement_receipt;
    assert_eq!(receipt.winner, alice);
    assert_eq!(receipt.pre_nav, PRE_NAV);
    assert_eq!(receipt.settled_slot, 35);
    auction.round = ctx.auction_round;
    let consumed = ctx.winner_authorization;

    // Settling again is refused.
    let mut again = settle_context(&auction, alice, consumed);
    assert_eq!(
        execute_mock_settlement(&mut again, 36).unwrap_err(),
        AxisAuctionError::AuctionNotClosed
    );

    // Record the payment: the vaults receive the split of the winning bid.
    let mut ctx = record_context(&auction, receipt);
    let event = claim_or_record_auction_payment(&mut ctx).unwrap();
    assert_eq!(event.protocol_revenue + event.creator_revenue, 6_125_000);
    assert_eq!(ctx.protocol_revenue_vault.total_in, 1_225_000);
    assert_eq!(ctx.creator_revenue_vault.total_in, 4_900_000);
    assert!(ctx.auction_round.payment_recorded);

    // Recording again is refused and changes nothing.
    let mut again = ctx;
    let before = again;
    assert_eq!(
        claim_or_record_auction_payment(&mut again).unwrap_err(),
        AxisAuctionError::PaymentAlreadyRecorded
    );
    assert_eq!(again, before);
}

#[test]
fn bids_are_refused_for_each_reason() {
    let mut auction = open_auction();
    let alice = key(20);

    // Wrong market.
    let mut ctx = bid_context(&auction, alice, empty_bid_record());
    ctx.market_key = key(90);
    assert_eq!(
        submit_bid(&mut ctx, 12, 2_000_000).unwrap_err(),
        AxisAuctionError::MarketMismatch
    );
    // Bidding window elapsed.
    assert_eq!(
        place_bid(&mut auction, alice, empty_bid_record(), 30, 2_000_000).unwrap_err(),
        AxisAuctionError::AuctionExpired
    );
    // Below the configured minimum bid.
    assert_eq!(
        place_bid(&mut auction, alice, empty_bid_record(), 12, 999_999).unwrap_err(),
        AxisAuctionError::BidTooLow
    );
    // Invalid configured improvement.
    let mut bad = bid_context(&auction, alice, empty_bid_record());
    bad.config.min_improvement_bps = 10_001;
    assert_eq!(
        submit_bid(&mut bad, 12, 2_000_000).unwrap_err(),
        AxisAuctionError::InvalidMinImprovementBps
    );
    // A bid record of another round or another bidder.
    let record = place_bid(&mut auction, alice, empty_bid_record(), 12, 2_000_000).unwrap();
    let foreign = BidRecord { round: key(91), ..record };
    assert_eq!(
        place_bid(&mut auction, alice, foreign, 13, 4_000_000).unwrap_err(),
        AxisAuctionError::RoundMismatch
    );
    assert_eq!(
        place_bid(&mut auction, key(22), record, 13, 4_000_000).unwrap_err(),
        AxisAuctionError::Unauthorized
    );
    // The required improvement overflows.
    let mut huge = bid_context(&auction, alice, record);
    huge.auction_round.highest_bid = u64::MAX;
    assert_eq!(
        submit_bid(&mut huge, 13, u64::MAX).unwrap_err(),
        AxisAuctionError::MathOverflow
    );
    // The bid count is exhausted for a new bidder.
    let mut full = bid_context(&auction, key(23), empty_bid_record());
    full.auction_round.bid_count = u32::MAX;
    assert_eq!(
        submit_bid(&mut full, 13, 4_000_000).unwrap_err(),
        AxisAuctionError::MathOverflow
    );
}

#[test]
fn closing_without_bids_is_refused() {
    let auction = open_auction();
    let mut ctx = close_context(&auction);
    let before = ctx;
    assert_eq!(
        close_auction_select_winner(&mut ctx, 30).unwrap_err(),
        AxisAuctionError::NoBids
    );
    assert_eq!(ctx, before);

    let mut ctx = close_context(&auction);
    ctx.market_key = key(90);
    assert_eq!(
        close_auction_select_winner(&mut ctx, 30).unwrap_err(),
        AxisAuctionError::MarketMismatch
    );
}

fn closed_auction(amount: u64) -> (Auction, WinnerAuthorization) {
    let mut auction = open_auction();
    place_bid(&mut auction, key(20), empty_bid_record(), 12, amount).unwrap();
    let mut ctx = close_context(&auction);
    close_auction_select_winner(&mut ctx, 30).unwrap();
    auction.round = ctx.auction_round;
    (auction, ctx.winner_authorization)
}

#[test]
fn settlements_are_refused_for_each_reason() {
    let alice = key(20);
    let (auction, authorization) = closed_auction(2_000_000);

    let consumed = WinnerAuthorization { consumed: true, ..authorization };
    let mut ctx = settle_context(&auction, alice, consumed);
    assert_eq!(
        execute_mock_settlement(&mut ctx, 31).unwrap_err(),
        AxisAuctionError::AuthorizationConsumed
    );

    let other_round = WinnerAuthorization { round: key(92), ..authorization };
    let mut ctx = settle_context(&auction, alice, other_round);
    assert_eq!(
        execute_mock_settlement(&mut ctx, 31).unwrap_err(),
        AxisAuctionError::RoundMismatch
    );

    let other_market = WinnerAuthorization { market: key(93), ..authorization };
    let mut ctx = settle_context(&auction, alice, other_market);
    assert_eq!(
        execute_mock_settlement(&mut ctx, 31).unwrap_err(),
        AxisAuctionError::MarketMismatch
    );

    let other_amount = WinnerAuthorization { bid_amount: 1, ..authorization };
    let mut ctx = settle_context(&auction, alice, other_amount);
    assert_eq!(
        execute_mock_settlement(&mut ctx, 31).unwrap_err(),
        AxisAuctionError::BidMismatch
    );

    // NAV updated at slot 10 with a staleness bound of 100.
    let mut ctx = settle_context(&auction, alice, authorization);
    assert_eq!(
        execute_mock_settlement(&mut ctx, 111).unwrap_err(),
        AxisAuctionError::StaleMarketState
    );

    let mut ctx = settle_context(&auction, alice, authorization);
    ctx.config.protocol_fee_bps = 10_001;
    assert_eq!(
        execute_mock_settlement(&mut ctx, 32).unwrap_err(),
        AxisAuctionError::InvalidProtocolFeeBps
    );

    let mut ctx = settle_context(&auction, alice, authorization);
    ctx.market.batch_size = u64::MAX;
    ctx.market.target_nav = u64::MAX;
    assert_eq!(
        execute_mock_settlement(&mut ctx, 32).unwrap_err(),
        AxisAuctionError::MathOverflow
    );

    let mut ctx = settle_context(&auction, alice, authorization);
    ctx.market.min_settlement_out = 1_040_000_001;
    assert_eq!(
        execute_mock_settlement(&mut ctx, 32).unwrap_err(),
        AxisAuctionError::MinOutNotMet
    );

    let mut ctx = settle_context(&auction, alice, authorization);
    ctx.market.min_improvement_bps = 8_001;
    let before = ctx;
    assert_eq!(
        execute_mock_settlement(&mut ctx, 32).unwrap_err(),
        AxisAuctionError::MinImprovementNotMet
    );
    assert_eq!(ctx, before);

    // The settlement uses the round's NAV snapshot, not the market's current NAV.
    let mut ctx = settle_context(&auction, alice, authorization);
    ctx.market.pre_nav = 1_045_000;
    let event = execute_mock_settlement(&mut ctx, 32).unwrap();
    assert_eq!(event.pre_nav, PRE_NAV);
    assert_eq!(event.starting_gap_value, 50_000_000);

    // A round that is still open cannot be settled.
    let open = open_auction();
    let mut ctx = settle_context(&open, alice, authorization);
    assert_eq!(
        execute_mock_settlement(&mut ctx, 32).unwrap_err(),
        AxisAuctionError::AuctionNotClosed
    );
}

fn settled_auction() -> (Auction, SettlementReceipt) {
    settled_auction_with(5_000_000)
}

fn settled_auction_with(amount: u64) -> (Auction, SettlementReceipt) {
    let (mut auction, authorization) = closed_auction(amount);
    let mut ctx = settle_context(&auction, key(20), authorization);
    execute_mock_settlement(&mut ctx, 32).unwrap();
    auction.round = ctx.auction_round;
    (auction, ctx.settlement_receipt)
}

#[test]
fn payment_records_are_refused_for_each_reason() {
    let (auction, receipt) = settled_auction();
    assert_eq!(receipt.protocol_revenue, 1_000_000);
    assert_eq!(receipt.creator_revenue, 4_000_000);

    let mut ctx = record_context(&auction, receipt);
    ctx.market_key = key(90);
    assert_eq!(
        claim_or_record_auction_payment(&mut ctx).unwrap_err(),
        AxisAuctionError::MarketMismatch
    );

    let mut ctx = record_context(&auction, SettlementReceipt { round: key(94), ..receipt });
    assert_eq!(
        claim_or_record_auction_payment(&mut ctx).unwrap_err(),
        AxisAuctionError::RoundMismatch
    );

    let mut ctx = record_context(&auction, receipt);
    ctx.protocol_revenue_vault_key = key(95);
    assert_eq!(
        claim_or_record_auction_payment(&mut ctx).unwrap_err(),
        AxisAuctionError::WrongRevenueVault
    );

    let mut ctx = record_context(&auction, receipt);
    ctx.creator_revenue_vault.usdc_mint = key(96);
    assert_eq!(
        claim_or_record_auction_payment(&mut ctx).unwrap_err(),
        AxisAuctionError::WrongRevenueVault
    );

    let mut ctx = record_context(&auction, SettlementReceipt { winner: key(97), ..receipt });
    assert_eq!(
        claim_or_record_auction_payment(&mut ctx).unwrap_err(),
        AxisAuctionError::Unauthorized
    );

    let mut ctx = record_context(
        &auction,
        SettlementReceipt { protocol_revenue: 2_000_000, ..receipt },
    );
    assert_eq!(
        claim_or_record_auction_payment(&mut ctx).unwrap_err(),
        AxisAuctionError::BidMismatch
    );

    let mut ctx = record_context(&auction, receipt);
    ctx.protocol_revenue_vault.total_in = u64::MAX;
    let before = ctx;
    assert_eq!(
        claim_or_record_auction_payment(&mut ctx).unwrap_err(),
        AxisAuctionError::MathOverflow
    );
    assert_eq!(ctx, before);

    let open = open_auction();
    let mut ctx = record_context(&open, receipt);
    assert_eq!(
        claim_or_record_auction_payment(&mut ctx).unwrap_err(),
        AxisAuctionError::AuctionNotSettled
    );
}

#[test]
fn keys_compare_by_their_bytes() {
    let mut bytes = [3u8; 32];
    assert!(key(3).same(&AccountKey::new(bytes)));
    bytes[31] = 4;
    assert!(!key(3).same(&AccountKey::new(bytes)));
    assert!(AccountKey::default_key().is_default());
    assert!(AccountKey::new([0u8; 32]).is_default());
    let mut almost_zero = [0u8; 32];
    almost_zero[17] = 1;
    assert!(!AccountKey::new(almost_zero).is_default());
}

#[test]
fn vault_totals_sum_the_shares_of_several_rounds() {
    let (first, first_receipt) = settled_auction_with(5_000_000);
    let mut ctx = record_context(&first, first_receipt);
    claim_or_record_auction_payment(&mut ctx).unwrap();

    let (second, second_receipt) = settled_auction_with(10_000_000);
    let mut next = record_context(&second, second_receipt);
    next.protocol_revenue_vault = ctx.protocol_revenue_vault;
    next.creator_revenue_vault = ctx.creator_revenue_vault;
    claim_or_record_auction_payment(&mut next).unwrap();

    assert_eq!(next.protocol_revenue_vault.total_in, 1_000_000 + 2_000_000);
    assert_eq!(next.creator_revenue_vault.total_in, 4_000_000 + 8_000_000);
    assert_eq!(
        next.protocol_revenue_vault.total_in + next.creator_revenue_vault.total_in,
        5_000_000 + 10_000_000
    );
}

#[test]
fn last_accepted_bid_wins() {
    let mut auction = open_auction();
    let amounts = [1_000_000u64, 1_750_000, 3_062_500, 5_359_375];
    for (i, amount) in amounts.iter().enumerate() {
        place_bid(&mut auction, key(30 + i as u8), empty_bid_record(), 12 + i as u64, *amount)
            .unwrap();
    }
    let mut ctx = close_context(&auction);
    close_auction_select_winner(&mut ctx, 30).unwrap();
    assert_eq!(ctx.winner_authorization.bid_amount, 5_359_375);
    assert_eq!(ctx.winner_authorization.winner, key(33));
    assert!(amounts.iter().all(|a| *a <= ctx.winner_authorization.bid_amount));
}
