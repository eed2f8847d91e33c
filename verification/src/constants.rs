//! Shared units and scales.
//!
//! SOL is intentionally absent from auction economics: it only pays
//! transaction and priority fees.

use vstd::prelude::*;

verus! {

/// mock USDC has 6 decimals.
pub const USDC_DECIMALS: u8 = 6;

/// mock DTF has 6 decimals.
pub const DTF_DECIMALS: u8 = 6;

/// Price scale: USDC per DTF, 1e6 fixed point.
pub const PRICE_SCALE: u128 = 1_000_000;

/// Basis points scale: 10_000 = 100%.
pub const BPS_SCALE: u128 = 10_000;

/// Basis points scale as a signed integer for signed calculations.
pub const BPS_SCALE_I128: i128 = 10_000;

/// The only supported market kind: a batch clearing right.
pub const MARKET_KIND_BATCH_CLEARING_RIGHT: u8 = 0;

} // verus!
