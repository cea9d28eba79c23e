//! The delegation handshake and session token rotation.

use outcry::auction::{handle_create_auction, handle_place_bid, handle_start_auction};
use outcry::delegation::{handle_delegate_auction, handle_undelegate_auction};
use outcry::errors::OutcryError;
use outcry::escrow::handle_deposit;
use outcry::session::{handle_create_session, rotate_session};
use outcry::state::{AccountId, AuctionVault, DomainOwner};

fn acct(id: u64) -> AccountId {
    AccountId { id }
}

#[test]
fn delegate_and_undelegate() {
    let mut a = handle_create_auction(acct(1), acct(2), 3600, 254);
    assert_eq!(a.owner_domain, DomainOwner::BaseOwned);

    // only the seller may hand the record off
    let r = handle_delegate_auction(&mut a, acct(9));
    assert_eq!(r, Err(OutcryError::UnauthorizedSeller));

    handle_delegate_auction(&mut a, acct(1)).unwrap();
    assert_eq!(a.owner_domain, DomainOwner::Delegated);

    // delegating an already-delegated record fails distinguishably
    let r = handle_delegate_auction(&mut a, acct(1));
    assert_eq!(r, Err(OutcryError::WrongDomain));

    handle_undelegate_auction(&mut a, acct(1)).unwrap();
    assert_eq!(a.owner_domain, DomainOwner::BaseOwned);

    let r = handle_undelegate_auction(&mut a, acct(1));
    assert_eq!(r, Err(OutcryError::WrongDomain));
}

#[test]
fn bids_follow_the_owning_domain() {
    let t: i64 = 1000;
    let mut a = handle_create_auction(acct(1), acct(2), 100, 254);
    let mut v = AuctionVault { balance: 0, bump: 7 };
    handle_deposit(&mut a, &mut v, acct(9), 500).unwrap();
    handle_start_auction(&mut a, acct(1), t).unwrap();
    handle_delegate_auction(&mut a, acct(1)).unwrap();

    // the base domain no longer owns the record: bids there must fail
    let r = handle_place_bid(&mut a, DomainOwner::BaseOwned, acct(9), 100, t + 1);
    assert_eq!(r, Err(OutcryError::WrongDomain));

    // the low-latency domain processes the bid
    handle_place_bid(&mut a, DomainOwner::Delegated, acct(9), 100, t + 1).unwrap();
    assert_eq!(a.highest_bidder, Some(acct(9)));

    // after the handback, bidding moves with the ownership
    handle_undelegate_auction(&mut a, acct(1)).unwrap();
    let r = handle_place_bid(&mut a, DomainOwner::Delegated, acct(9), 200, t + 2);
    assert_eq!(r, Err(OutcryError::WrongDomain));
    handle_place_bid(&mut a, DomainOwner::BaseOwned, acct(9), 200, t + 2).unwrap();
    assert_eq!(a.current_bid, 200);
    assert_eq!(a.bid_count, 2);
}

#[test]
fn delegation_never_touches_funds() {
    let mut a = handle_create_auction(acct(1), acct(2), 3600, 254);
    let mut v = AuctionVault { balance: 0, bump: 7 };
    handle_deposit(&mut a, &mut v, acct(9), 25).unwrap();
    handle_delegate_auction(&mut a, acct(1)).unwrap();
    assert_eq!(v.balance, 25);
    assert_eq!(a.find_deposit(acct(9)), Some((0, 25)));
    handle_undelegate_auction(&mut a, acct(1)).unwrap();
    assert_eq!(v.balance, 25);
    assert_eq!(a.find_deposit(acct(9)), Some((0, 25)));
}

#[test]
fn session_create_and_rotate() {
    let t = handle_create_session(acct(2), acct(9), acct(77), 1_700_000_000, 3);
    assert_eq!(t.auction, acct(2));
    assert_eq!(t.bidder, acct(9));
    assert_eq!(t.session_signer, acct(77));
    assert_eq!(t.created_at, 1_700_000_000);
    assert_eq!(t.bump, 3);

    // the client restarted with a fresh ephemeral key: same scope, new signer
    let mut t = t;
    rotate_session(&mut t, acct(88), 1_700_000_500);
    assert_eq!(t.session_signer, acct(88));
    assert_eq!(t.created_at, 1_700_000_500);
    assert_eq!(t.auction, acct(2));
    assert_eq!(t.bidder, acct(9));
    assert_eq!(t.bump, 3);
}
