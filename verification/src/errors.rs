//! Error taxonomy of the core. Every failure is surfaced to the caller with
//! the state left exactly as it was before the attempt.

use vstd::prelude::*;

verus! {

/// Why an operation was rejected.
#[derive(Clone, Copy, PartialEq, Eq, Structural, Debug)]
pub enum OutcryError {
    /// The record's status does not match the operation's precondition, or
    /// the emergency path was invoked while the record is owned normally.
    InvalidAuctionStatus,
    /// A deposit of zero was requested.
    InvalidDepositAmount,
    /// A balance or time addition would overflow.
    ArithmeticOverflow,
    /// The deposit ledger already holds MAX_BIDDERS distinct bidders.
    AuctionFull,
    /// Refunds are only available once the auction is Settled or Cancelled.
    RefundNotAvailable,
    /// The bidder has no deposit left to refund.
    NothingToRefund,
    /// EndAuction was invoked strictly before `end_time`; retry later.
    AuctionStillActive,
    /// The caller is not the auction's recorded seller.
    UnauthorizedSeller,
    /// A bid was submitted after `end_time`.
    AuctionExpired,
    /// A bid does not exceed the current bid by the minimum increment.
    BidTooLow,
    /// The bidder's escrowed funds do not cover the bid.
    InsufficientDeposit,
    /// The operation was submitted against the execution domain that does
    /// not currently own the record, or a delegation handoff was requested
    /// while the record already sits on the target domain.
    WrongDomain,
}

} // verus!
