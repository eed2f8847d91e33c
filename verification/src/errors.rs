//! Error codes of the auction lifecycle.

use vstd::prelude::*;

verus! {

/// Why a lifecycle step was refused.
#[derive(Debug, Clone, Copy, PartialEq, Eq, Structural)]
pub enum AxisAuctionError {
    /// The signer is not authorized for this action.
    Unauthorized,
    /// The auction round is not open.
    AuctionNotOpen,
    /// The auction round is not closed.
    AuctionNotClosed,
    /// The auction round has expired.
    AuctionExpired,
    /// The auction round has already been settled.
    AuctionAlreadySettled,
    /// The winner authorization has already been consumed.
    AuthorizationConsumed,
    /// The bid does not meet the required improvement.
    BidTooLow,
    /// The auction round has no bids.
    NoBids,
    /// The supplied market does not match the auction round.
    MarketMismatch,
    /// The supplied round does not match the related account.
    RoundMismatch,
    /// The supplied revenue vault is not the expected vault.
    WrongRevenueVault,
    /// Settlement output is below the market minimum.
    MinOutNotMet,
    /// Settlement improvement is below the market minimum.
    MinImprovementNotMet,
    /// The market NAV state is stale.
    StaleMarketState,
    /// Protocol fee basis points must not exceed 10,000.
    InvalidProtocolFeeBps,
    /// An arithmetic operation overflowed.
    MathOverflow,
    /// Auction payment has already been recorded.
    PaymentAlreadyRecorded,
    /// The market kind is not supported by this POC.
    InvalidMarketKind,
    /// Auction duration must be greater than zero.
    InvalidAuctionDuration,
    /// Batch size must be greater than zero.
    InvalidBatchSize,
    /// Maximum NAV staleness must be greater than zero.
    InvalidMaxNavStaleness,
    /// Minimum improvement basis points must not exceed 10,000.
    InvalidMinImprovementBps,
    /// The winner authorization bid amount does not match the auction round.
    BidMismatch,
    /// The auction round has not been settled.
    AuctionNotSettled,
}

} // verus!
