//! The auction state machine: creation, the start/end timing transitions,
//! bidding, and the terminal settle/cancel transitions. Each operation is
//! specified by an `*_outcome` function (what the caller gets back) and a
//! `*_next` function (the record after the call); a failed operation leaves
//! the record exactly as it was.

use vstd::prelude::*;
use crate::errors::OutcryError;
use crate::events::{AuctionEnded, AuctionStarted};
use crate::state::{
    recorded_deposit, AccountId, AuctionState, AuctionStatus, DomainOwner,
    lemma_index_of_bidder,
};

verus! {

/// A new bid must exceed the current one by at least this much.
pub const MIN_BID_INCREMENT: u64 = 1;

/// The status transitions the lifecycle allows: monotone along
/// Created -> Active -> Ended -> Settled, with Cancelled reachable only
/// from Created or Active.
pub open spec fn status_can_step(from: AuctionStatus, to: AuctionStatus) -> bool {
    ||| from == to
    ||| (from == AuctionStatus::Created && (to == AuctionStatus::Active || to
        == AuctionStatus::Cancelled))
    ||| (from == AuctionStatus::Active && (to == AuctionStatus::Ended || to
        == AuctionStatus::Cancelled))
    ||| (from == AuctionStatus::Ended && to == AuctionStatus::Settled)
}

/// The timing window StartAuction fixes, as unbounded integers.
pub open spec fn computed_end_time(a: AuctionState, now: i64) -> int {
    now + (a.duration_seconds as i64)
}

/// What StartAuction returns: only the recorded seller may start, only a
/// Created auction starts, and the end-time addition must not overflow.
pub open spec fn start_outcome(a: AuctionState, caller: AccountId, now: i64) -> Result<
    AuctionStarted,
    OutcryError,
> {
    if caller != a.seller {
        Err(OutcryError::UnauthorizedSeller)
    } else if a.status != AuctionStatus::Created {
        Err(OutcryError::InvalidAuctionStatus)
    } else if !(i64::MIN <= computed_end_time(a, now) <= i64::MAX) {
        Err(OutcryError::ArithmeticOverflow)
    } else {
        Ok(AuctionStarted { start_time: now, end_time: computed_end_time(a, now) as i64 })
    }
}

/// The record after StartAuction: timing fixed and status Active on
/// success, untouched on failure.
pub open spec fn start_next(a: AuctionState, caller: AccountId, now: i64) -> AuctionState {
    if start_outcome(a, caller, now) is Ok {
        AuctionState {
            status: AuctionStatus::Active,
            start_time: now,
            end_time: computed_end_time(a, now) as i64,
            ..a
        }
    } else {
        a
    }
}

/// What EndAuction returns: the permissionless crank succeeds exactly on an
/// Active auction at or after its end time, and then hands out the
/// settlement-ready snapshot.
pub open spec fn end_outcome(a: AuctionState, now: i64) -> Result<AuctionEnded, OutcryError> {
    if a.status != AuctionStatus::Active {
        Err(OutcryError::InvalidAuctionStatus)
    } else if now < a.end_time {
        Err(OutcryError::AuctionStillActive)
    } else {
        Ok(
            AuctionEnded {
                winner: a.highest_bidder,
                winning_bid: a.current_bid,
                total_bids: a.bid_count,
            },
        )
    }
}

/// The record after EndAuction: status Ended on success, untouched on
/// failure.
pub open spec fn end_next(a: AuctionState, now: i64) -> AuctionState {
    if end_outcome(a, now) is Ok {
        AuctionState { status: AuctionStatus::Ended, ..a }
    } else {
        a
    }
}

/// What PlaceBid returns. A bid is accepted only on the domain that owns
/// the record, while the auction is Active and before its end time, if it
/// beats the current bid by the minimum increment and the bidder's escrowed
/// funds cover it.
pub open spec fn bid_outcome(
    a: AuctionState,
    executing_domain: DomainOwner,
    bidder: AccountId,
    amount: u64,
    now: i64,
) -> Result<(), OutcryError> {
    if executing_domain != a.owner_domain {
        Err(OutcryError::WrongDomain)
    } else if a.status != AuctionStatus::Active {
        Err(OutcryError::InvalidAuctionStatus)
    } else if now >= a.end_time {
        Err(OutcryError::AuctionExpired)
    } else if amount < a.current_bid + MIN_BID_INCREMENT {
        Err(OutcryError::BidTooLow)
    } else if recorded_deposit(a.deposits@, bidder) < amount {
        Err(OutcryError::InsufficientDeposit)
    } else if a.bid_count + 1 > u64::MAX {
        Err(OutcryError::ArithmeticOverflow)
    } else {
        Ok(())
    }
}

/// The record after PlaceBid: the running high-bid state advances on
/// success, untouched on failure.
pub open spec fn bid_next(
    a: AuctionState,
    executing_domain: DomainOwner,
    bidder: AccountId,
    amount: u64,
    now: i64,
) -> AuctionState {
    if bid_outcome(a, executing_domain, bidder, amount, now) is Ok {
        AuctionState {
            highest_bidder: Some(bidder),
            current_bid: amount,
            bid_count: (a.bid_count + 1) as u64,
            ..a
        }
    } else {
        a
    }
}

/// What Settle returns: only an Ended auction settles.
pub open spec fn settle_outcome(a: AuctionState) -> Result<(), OutcryError> {
    if a.status != AuctionStatus::Ended {
        Err(OutcryError::InvalidAuctionStatus)
    } else {
        Ok(())
    }
}

/// The record after Settle.
pub open spec fn settle_next(a: AuctionState) -> AuctionState {
    if settle_outcome(a) is Ok {
        AuctionState { status: AuctionStatus::Settled, ..a }
    } else {
        a
    }
}

/// What Cancel returns: only the recorded seller may cancel, and only
/// before the auction has ended.
pub open spec fn cancel_outcome(a: AuctionState, caller: AccountId) -> Result<(), OutcryError> {
    if caller != a.seller {
        Err(OutcryError::UnauthorizedSeller)
    } else if a.status != AuctionStatus::Created && a.status != AuctionStatus::Active {
        Err(OutcryError::InvalidAuctionStatus)
    } else {
        Ok(())
    }
}

/// The record after Cancel.
pub open spec fn cancel_next(a: AuctionState, caller: AccountId) -> AuctionState {
    if cancel_outcome(a, caller) is Ok {
        AuctionState { status: AuctionStatus::Cancelled, ..a }
    } else {
        a
    }
}

/// Creates the auction record: Created, owned by the base domain, with an
/// empty deposit ledger and no bids.
pub fn handle_create_auction(
    seller: AccountId,
    asset: AccountId,
    duration_seconds: u64,
    bump: u8,
) -> (a: AuctionState)
    ensures
        a.wf(),
        a == (AuctionState {
            status: AuctionStatus::Created,
            seller,
            asset,
            highest_bidder: None,
            current_bid: 0,
            bid_count: 0,
            start_time: 0,
            end_time: 0,
            duration_seconds,
            deposits: a.deposits,
            owner_domain: DomainOwner::BaseOwned,
            bump,
        }),
        a.deposits@.len() == 0,
{
    AuctionState {
        status: AuctionStatus::Created,
        seller,
        asset,
        highest_bidder: None,
        current_bid: 0,
        bid_count: 0,
        start_time: 0,
        end_time: 0,
        duration_seconds,
        deposits: Vec::new(),
        owner_domain: DomainOwner::BaseOwned,
        bump,
    }
}

/// StartAuction: fixes `start_time` to the current time, computes
/// `end_time = start_time + duration_seconds` with a checked addition, and
/// flips the status to Active. Fails without touching the record when the
/// caller is not the seller, the status is not Created, or the addition
/// overflows.
pub fn handle_start_auction(auction: &mut AuctionState, caller: AccountId, now: i64) -> (r:
    Result<AuctionStarted, OutcryError>)
    ensures
        r == start_outcome(*old(auction), caller, now),
        *final(auction) == start_next(*old(auction), caller, now),
        status_can_step(old(auction).status, final(auction).status),
        old(auction).wf() ==> final(auction).wf(),
{
    if caller != auction.seller {
        return Err(OutcryError::UnauthorizedSeller);
    }
    if auction.status != AuctionStatus::Created {
        return Err(OutcryError::InvalidAuctionStatus);
    }
    let d = auction.duration_seconds as i64;
    let wide: i128 = now as i128 + d as i128;
    if wide < i64::MIN as i128 || wide > i64::MAX as i128 {
        return Err(OutcryError::ArithmeticOverflow);
    }
    let end = wide as i64;
    auction.start_time = now;
    auction.end_time = end;
    auction.status = AuctionStatus::Active;
    Ok(AuctionStarted { start_time: now, end_time: end })
}

/// EndAuction: the permissionless crank. Fails with AuctionStillActive
/// strictly before `end_time`; at or after it, flips the status to Ended
/// exactly once and returns the final high-bid snapshot; any later call
/// fails because the status is no longer Active.
pub fn handle_end_auction(auction: &mut AuctionState, now: i64) -> (r: Result<
    AuctionEnded,
    OutcryError,
>)
    ensures
        r == end_outcome(*old(auction), now),
        *final(auction) == end_next(*old(auction), now),
        status_can_step(old(auction).status, final(auction).status),
        old(auction).wf() ==> final(auction).wf(),
{
    if auction.status != AuctionStatus::Active {
        return Err(OutcryError::InvalidAuctionStatus);
    }
    if now < auction.end_time {
        return Err(OutcryError::AuctionStillActive);
    }
    auction.status = AuctionStatus::Ended;
    Ok(
        AuctionEnded {
            winner: auction.highest_bidder,
            winning_bid: auction.current_bid,
            total_bids: auction.bid_count,
        },
    )
}

/// PlaceBid: accepted only on the execution domain that currently owns the
/// record (a bid against the other domain fails distinguishably with
/// WrongDomain), while Active and before `end_time`, when the bid beats the
/// current one by MIN_BID_INCREMENT and the bidder's already-escrowed
/// deposit covers it. Bids never move funds.
pub fn handle_place_bid(
    auction: &mut AuctionState,
    executing_domain: DomainOwner,
    bidder: AccountId,
    amount: u64,
    now: i64,
) -> (r: Result<(), OutcryError>)
    requires
        old(auction).wf(),
    ensures
        r == bid_outcome(*old(auction), executing_domain, bidder, amount, now),
        *final(auction) == bid_next(*old(auction), executing_domain, bidder, amount, now),
        status_can_step(old(auction).status, final(auction).status),
        final(auction).wf(),
{
    if executing_domain != auction.owner_domain {
        return Err(OutcryError::WrongDomain);
    }
    if auction.status != AuctionStatus::Active {
        return Err(OutcryError::InvalidAuctionStatus);
    }
    if now >= auction.end_time {
        return Err(OutcryError::AuctionExpired);
    }
    if amount <= auction.current_bid || amount - auction.current_bid < MIN_BID_INCREMENT {
        return Err(OutcryError::BidTooLow);
    }
    let escrowed: u64 = match auction.find_deposit(bidder) {
        Some(p) => {
            proof {
                lemma_index_of_bidder(auction.deposits@, bidder, p.0 as int);
            }
            p.1
        },
        None => 0,
    };
    if escrowed < amount {
        return Err(OutcryError::InsufficientDeposit);
    }
    if auction.bid_count == u64::MAX {
        return Err(OutcryError::ArithmeticOverflow);
    }
    auction.highest_bidder = Some(bidder);
    auction.current_bid = amount;
    auction.bid_count = auction.bid_count + 1;
    Ok(())
}

/// Settle: terminal transition from Ended; the numeric distribution policy
/// of the winning bid lives outside this core.
pub fn handle_settle(auction: &mut AuctionState) -> (r: Result<(), OutcryError>)
    ensures
        r == settle_outcome(*old(auction)),
        *final(auction) == settle_next(*old(auction)),
        status_can_step(old(auction).status, final(auction).status),
        old(auction).wf() ==> final(auction).wf(),
{
    if auction.status != AuctionStatus::Ended {
        return Err(OutcryError::InvalidAuctionStatus);
    }
    auction.status = AuctionStatus::Settled;
    Ok(())
}

/// Cancel: terminal transition the seller may take from Created or Active.
pub fn handle_cancel(auction: &mut AuctionState, caller: AccountId) -> (r: Result<
    (),
    OutcryError,
>)
    ensures
        r == cancel_outcome(*old(auction), caller),
        *final(auction) == cancel_next(*old(auction), caller),
        status_can_step(old(auction).status, final(auction).status),
        old(auction).wf() ==> final(auction).wf(),
{
    if caller != auction.seller {
        return Err(OutcryError::UnauthorizedSeller);
    }
    if auction.status != AuctionStatus::Created && auction.status != AuctionStatus::Active {
        return Err(OutcryError::InvalidAuctionStatus);
    }
    auction.status = AuctionStatus::Cancelled;
    Ok(())
}

} // verus!
