//! Notification payloads computed by the core and emitted by the caller as
//! side effects. Observers consume them; the core never reads them back.

use vstd::prelude::*;
use crate::state::AccountId;

verus! {

/// An auction was started: its timing window is now fixed.
#[derive(Clone, Copy, PartialEq, Eq, Debug)]
pub struct AuctionStarted {
    pub start_time: i64,
    pub end_time: i64,
}

/// A deposit was locked; `total_deposit` is the bidder's new cumulative total.
#[derive(Clone, Copy, PartialEq, Eq, Debug)]
pub struct DepositMade {
    pub bidder: AccountId,
    pub amount: u64,
    pub total_deposit: u64,
}

/// The auction ended: the settlement-ready snapshot of the final bid state.
#[derive(Clone, Copy, PartialEq, Eq, Debug)]
pub struct AuctionEnded {
    pub winner: Option<AccountId>,
    pub winning_bid: u64,
    pub total_bids: u64,
}

/// A deposit was drained back to its bidder (normal or emergency path).
#[derive(Clone, Copy, PartialEq, Eq, Debug)]
pub struct RefundClaimed {
    pub bidder: AccountId,
    pub amount: u64,
}

} // verus!
