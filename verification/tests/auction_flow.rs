//! Lifecycle of the auction state machine: start, bid, end, settle, cancel.

use outcry::auction::{
    handle_cancel, handle_create_auction, handle_end_auction, handle_place_bid, handle_settle,
    handle_start_auction,
};
use outcry::errors::OutcryError;
use outcry::escrow::handle_deposit;
use outcry::state::{AccountId, AuctionStatus, AuctionVault, DomainOwner};

fn acct(id: u64) -> AccountId {
    AccountId { id }
}

#[test]
fn create_auction_initial_state() {
    let a = handle_create_auction(acct(1), acct(2), 3600, 254);
    assert_eq!(a.status, AuctionStatus::Created);
    assert_eq!(a.seller, acct(1));
    assert_eq!(a.asset, acct(2));
    assert_eq!(a.duration_seconds, 3600);
    assert_eq!(a.highest_bidder, None);
    assert_eq!(a.current_bid, 0);
    assert_eq!(a.bid_count, 0);
    assert_eq!(a.owner_domain, DomainOwner::BaseOwned);
    assert_eq!(a.deposits.len(), 0);
    assert_eq!(a.bump, 254);
}

#[test]
fn start_auction_fixes_timing() {
    let mut a = handle_create_auction(acct(1), acct(2), 3600, 254);
    let ev = handle_start_auction(&mut a, acct(1), 1_700_000_000).unwrap();
    assert_eq!(ev.start_time, 1_700_000_000);
    assert_eq!(ev.end_time, 1_700_003_600);
    assert_eq!(a.status, AuctionStatus::Active);
    assert_eq!(a.start_time, 1_700_000_000);
    assert_eq!(a.end_time, 1_700_003_600);
}

#[test]
fn start_auction_rejects_wrong_seller() {
    let mut a = handle_create_auction(acct(1), acct(2), 3600, 254);
    let r = handle_start_auction(&mut a, acct(7), 1000);
    assert_eq!(r, Err(OutcryError::UnauthorizedSeller));
    assert_eq!(a.status, AuctionStatus::Created);
}

#[test]
fn start_auction_rejects_wrong_status() {
    let mut a = handle_create_auction(acct(1), acct(2), 3600, 254);
    handle_start_auction(&mut a, acct(1), 1000).unwrap();
    let r = handle_start_auction(&mut a, acct(1), 2000);
    assert_eq!(r, Err(OutcryError::InvalidAuctionStatus));
}

#[test]
fn start_auction_end_time_overflow() {
    let mut a = handle_create_auction(acct(1), acct(2), u64::MAX, 254);
    // duration cast to i64 wraps negative; adding it to i64::MIN underflows
    let r = handle_start_auction(&mut a, acct(1), i64::MIN);
    assert_eq!(r, Err(OutcryError::ArithmeticOverflow));
    assert_eq!(a.status, AuctionStatus::Created);

    let mut b = handle_create_auction(acct(1), acct(2), 3600, 254);
    let r = handle_start_auction(&mut b, acct(1), i64::MAX - 100);
    assert_eq!(r, Err(OutcryError::ArithmeticOverflow));
    assert_eq!(b.status, AuctionStatus::Created);
}

#[test]
fn end_auction_timing_window() {
    // Auction with duration 3600s started at T: EndAuction at T+3599 fails
    // AuctionStillActive; at T+3600 it succeeds; afterwards the status gate
    // rejects any further crank.
    let t: i64 = 1_700_000_000;
    let mut a = handle_create_auction(acct(1), acct(2), 3600, 254);
    handle_start_auction(&mut a, acct(1), t).unwrap();

    let r = handle_end_auction(&mut a, t + 3599);
    assert_eq!(r, Err(OutcryError::AuctionStillActive));
    assert_eq!(a.status, AuctionStatus::Active);

    let ev = handle_end_auction(&mut a, t + 3600).unwrap();
    assert_eq!(a.status, AuctionStatus::Ended);
    assert_eq!(ev.winner, None);
    assert_eq!(ev.winning_bid, 0);
    assert_eq!(ev.total_bids, 0);

    let r = handle_end_auction(&mut a, t + 3601);
    assert_eq!(r, Err(OutcryError::InvalidAuctionStatus));
    assert_eq!(a.status, AuctionStatus::Ended);
}

#[test]
fn end_auction_reports_final_snapshot() {
    let t: i64 = 1000;
    let mut a = handle_create_auction(acct(1), acct(2), 100, 254);
    let mut v = AuctionVault { balance: 0, bump: 7 };
    handle_deposit(&mut a, &mut v, acct(9), 500).unwrap();
    handle_start_auction(&mut a, acct(1), t).unwrap();
    handle_place_bid(&mut a, DomainOwner::BaseOwned, acct(9), 300, t + 1).unwrap();
    handle_place_bid(&mut a, DomainOwner::BaseOwned, acct(9), 400, t + 2).unwrap();
    let ev = handle_end_auction(&mut a, t + 100).unwrap();
    assert_eq!(ev.winner, Some(acct(9)));
    assert_eq!(ev.winning_bid, 400);
    assert_eq!(ev.total_bids, 2);
}

#[test]
fn place_bid_rules() {
    let t: i64 = 1000;
    let mut a = handle_create_auction(acct(1), acct(2), 100, 254);
    let mut v = AuctionVault { balance: 0, bump: 7 };
    handle_deposit(&mut a, &mut v, acct(9), 500).unwrap();
    handle_deposit(&mut a, &mut v, acct(8), 200).unwrap();

    // no bids before the auction is started
    let r = handle_place_bid(&mut a, DomainOwner::BaseOwned, acct(9), 100, t);
    assert_eq!(r, Err(OutcryError::InvalidAuctionStatus));

    handle_start_auction(&mut a, acct(1), t).unwrap();

    // wrong executing domain fails distinguishably
    let r = handle_place_bid(&mut a, DomainOwner::Delegated, acct(9), 100, t + 1);
    assert_eq!(r, Err(OutcryError::WrongDomain));

    // a bid at or past end_time is too late
    let r = handle_place_bid(&mut a, DomainOwner::BaseOwned, acct(9), 100, t + 100);
    assert_eq!(r, Err(OutcryError::AuctionExpired));

    // escrowed funds must cover the bid
    let r = handle_place_bid(&mut a, DomainOwner::BaseOwned, acct(8), 300, t + 1);
    assert_eq!(r, Err(OutcryError::InsufficientDeposit));

    // a bidder with no deposit at all cannot bid
    let r = handle_place_bid(&mut a, DomainOwner::BaseOwned, acct(7), 100, t + 1);
    assert_eq!(r, Err(OutcryError::InsufficientDeposit));

    handle_place_bid(&mut a, DomainOwner::BaseOwned, acct(9), 100, t + 1).unwrap();
    assert_eq!(a.highest_bidder, Some(acct(9)));
    assert_eq!(a.current_bid, 100);
    assert_eq!(a.bid_count, 1);

    // a new bid must beat the current one by the minimum increment
    let r = handle_place_bid(&mut a, DomainOwner::BaseOwned, acct(8), 100, t + 2);
    assert_eq!(r, Err(OutcryError::BidTooLow));

    handle_place_bid(&mut a, DomainOwner::BaseOwned, acct(8), 101, t + 2).unwrap();
    assert_eq!(a.highest_bidder, Some(acct(8)));
    assert_eq!(a.current_bid, 101);
    assert_eq!(a.bid_count, 2);
}

#[test]
fn settle_only_from_ended() {
    let mut a = handle_create_auction(acct(1), acct(2), 100, 254);
    assert_eq!(handle_settle(&mut a), Err(OutcryError::InvalidAuctionStatus));
    handle_start_auction(&mut a, acct(1), 0).unwrap();
    assert_eq!(handle_settle(&mut a), Err(OutcryError::InvalidAuctionStatus));
    handle_end_auction(&mut a, 100).unwrap();
    handle_settle(&mut a).unwrap();
    assert_eq!(a.status, AuctionStatus::Settled);
    // terminal: settling twice is rejected
    assert_eq!(handle_settle(&mut a), Err(OutcryError::InvalidAuctionStatus));
}

#[test]
fn cancel_only_by_seller_before_end() {
    let mut a = handle_create_auction(acct(1), acct(2), 100, 254);
    assert_eq!(handle_cancel(&mut a, acct(9)), Err(OutcryError::UnauthorizedSeller));
    handle_cancel(&mut a, acct(1)).unwrap();
    assert_eq!(a.status, AuctionStatus::Cancelled);

    let mut b = handle_create_auction(acct(1), acct(2), 100, 254);
    handle_start_auction(&mut b, acct(1), 0).unwrap();
    handle_cancel(&mut b, acct(1)).unwrap();
    assert_eq!(b.status, AuctionStatus::Cancelled);

    let mut c = handle_create_auction(acct(1), acct(2), 100, 254);
    handle_start_auction(&mut c, acct(1), 0).unwrap();
    handle_end_auction(&mut c, 100).unwrap();
    assert_eq!(handle_cancel(&mut c, acct(1)), Err(OutcryError::InvalidAuctionStatus));
}
