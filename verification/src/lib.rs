//! Core of an ascending-bid auction with on-ledger escrow.
//!
//! Bidders lock funds into a pooled vault while the auction record tracks
//! status, timing and the highest bid. The record's authority can be handed
//! to a low-latency execution domain for fast bidding while the vault stays
//! on the base settlement domain; two refund paths (normal and emergency)
//! guarantee that bidders can always recover their deposits.

pub mod auction;
pub mod delegation;
pub mod errors;
pub mod escrow;
pub mod events;
pub mod laws;
pub mod refund;
pub mod session;
pub mod state;
