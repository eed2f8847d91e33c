//! Initialize the global auction configuration and protocol revenue vault.

use vstd::prelude::*;

use crate::constants::BPS_SCALE;
use crate::errors::AxisAuctionError;
use crate::events::ConfigInitialized;
use crate::key::AccountKey;
use crate::state::{AuctionConfig, ProtocolRevenueVault};

verus! {

/// The accounts of a configuration initialization: the signing authority and
/// the addresses (and bump seeds) of the two accounts it creates.
#[derive(Debug, Clone, Copy, PartialEq, Eq)]
pub struct InitializeConfig {
    pub authority: AccountKey,
    pub config: AccountKey,
    pub config_bump: u8,
    pub protocol_revenue_vault: AccountKey,
    pub protocol_revenue_vault_bump: u8,
}

/// The configuration written by a successful initialization.
pub open spec fn initialized_config(
    ctx: InitializeConfig,
    protocol_fee_bps: u16,
    default_auction_duration_slots: u64,
    min_bid_amount: u64,
    min_improvement_bps: u16,
) -> AuctionConfig {
    AuctionConfig {
        authority: ctx.authority,
        protocol_revenue_vault: ctx.protocol_revenue_vault,
        protocol_fee_bps,
        default_auction_duration_slots,
        min_bid_amount,
        min_improvement_bps,
        bump: ctx.config_bump,
    }
}

/// The protocol vault written by a successful initialization: owned by the
/// authority, record-only (no token account), with nothing recorded yet.
pub open spec fn initialized_protocol_vault(
    ctx: InitializeConfig,
    usdc_mint: AccountKey,
) -> ProtocolRevenueVault {
    ProtocolRevenueVault {
        authority: ctx.authority,
        usdc_mint,
        token_account: AccountKey::zero(),
        total_in: 0,
        bump: ctx.protocol_revenue_vault_bump,
    }
}

/// Initialize the configuration: refused with `InvalidProtocolFeeBps` exactly
/// when the protocol fee exceeds 100%.
pub fn initialize_config(
    ctx: &InitializeConfig,
    usdc_mint: AccountKey,
    protocol_fee_bps: u16,
    default_auction_duration_slots: u64,
    min_bid_amount: u64,
    min_improvement_bps: u16,
) -> (result: Result<
    (AuctionConfig, ProtocolRevenueVault, ConfigInitialized),
    AxisAuctionError,
>)
    ensures
        protocol_fee_bps > BPS_SCALE ==> result == Err::<
            (AuctionConfig, ProtocolRevenueVault, ConfigInitialized),
            AxisAuctionError,
        >(AxisAuctionError::InvalidProtocolFeeBps),
        protocol_fee_bps <= BPS_SCALE ==> result == Ok::<
            (AuctionConfig, ProtocolRevenueVault, ConfigInitialized),
            AxisAuctionError,
        >(
            (
                initialized_config(
                    *ctx,
                    protocol_fee_bps,
                    default_auction_duration_slots,
                    min_bid_amount,
                    min_improvement_bps,
                ),
                initialized_protocol_vault(*ctx, usdc_mint),
                ConfigInitialized {
                    config: ctx.config,
                    authority: ctx.authority,
                    protocol_revenue_vault: ctx.protocol_revenue_vault,
                    usdc_mint,
                    protocol_fee_bps,
                    default_auction_duration_slots,
                    min_bid_amount,
                    min_improvement_bps,
                },
            ),
        ),
{
    if (protocol_fee_bps as u128) > BPS_SCALE {
        return Err(AxisAuctionError::InvalidProtocolFeeBps);
    }
    let protocol_revenue_vault = ProtocolRevenueVault {
        authority: ctx.authority,
        usdc_mint,
        // Record-only: no SPL token account is created.
        token_account: AccountKey::default_key(),
        total_in: 0,
        bump: ctx.protocol_revenue_vault_bump,
    };
    let config = AuctionConfig {
        authority: ctx.authority,
        protocol_revenue_vault: ctx.protocol_revenue_vault,
        protocol_fee_bps,
        default_auction_duration_slots,
        min_bid_amount,
        min_improvement_bps,
        bump: ctx.config_bump,
    };
    let event = ConfigInitialized {
        config: ctx.config,
        authority: config.authority,
        protocol_revenue_vault: config.protocol_revenue_vault,
        usdc_mint,
        protocol_fee_bps,
        default_auction_duration_slots,
        min_bid_amount,
        min_improvement_bps,
    };
    Ok((config, protocol_revenue_vault, event))
}

} // verus!
