//! Axis auction: the verified core of a settlement-right auction.
//!
//! The crate models the program's account data as plain values and states each
//! lifecycle step as a function from the accounts it reads to the accounts it
//! writes and the event it emits.

pub mod constants;
pub mod errors;
pub mod events;
pub mod instructions;
pub mod key;
pub mod lifecycle;
pub mod math;
pub mod state;
