//! Swap settlement for a concentrated-liquidity pool whose tokens may carry
//! a fee on transfer.
//!
//! The library is pure: the clock reading, the pricing engine's answer and
//! the event sink are values that the caller hands in or takes back, so that
//! every decision made between them is verified.

pub mod direction;
pub mod error;
pub mod fee;
pub mod state;
pub mod swap_v2;
