//! The delegation handshake: moving authority over the auction record
//! between the base settlement domain and the low-latency execution domain.
//! Only the record's authority moves; the escrow vault never leaves the
//! base domain. "Stuck" is not a stored state: it is the observable
//! condition that ownership has not returned to the base domain, and the
//! emergency refund path is its sole remediation.

use vstd::prelude::*;
use crate::errors::OutcryError;
use crate::state::{AccountId, AuctionState, DomainOwner};

verus! {

/// What DelegateAuction returns: only the seller may hand the record off,
/// and only while the base domain still owns it.
pub open spec fn delegate_outcome(a: AuctionState, caller: AccountId) -> Result<
    (),
    OutcryError,
> {
    if caller != a.seller {
        Err(OutcryError::UnauthorizedSeller)
    } else if a.owner_domain != DomainOwner::BaseOwned {
        Err(OutcryError::WrongDomain)
    } else {
        Ok(())
    }
}

/// The record after DelegateAuction: owned by the low-latency domain on
/// success, untouched on failure.
pub open spec fn delegate_next(a: AuctionState, caller: AccountId) -> AuctionState {
    if delegate_outcome(a, caller) is Ok {
        AuctionState { owner_domain: DomainOwner::Delegated, ..a }
    } else {
        a
    }
}

/// What UndelegateAuction returns: only the seller may request the handback,
/// and only while the record is actually delegated.
pub open spec fn undelegate_outcome(a: AuctionState, caller: AccountId) -> Result<
    (),
    OutcryError,
> {
    if caller != a.seller {
        Err(OutcryError::UnauthorizedSeller)
    } else if a.owner_domain != DomainOwner::Delegated {
        Err(OutcryError::WrongDomain)
    } else {
        Ok(())
    }
}

/// The record after UndelegateAuction: back on the base domain on success,
/// untouched on failure.
pub open spec fn undelegate_next(a: AuctionState, caller: AccountId) -> AuctionState {
    if undelegate_outcome(a, caller) is Ok {
        AuctionState { owner_domain: DomainOwner::BaseOwned, ..a }
    } else {
        a
    }
}

/// DelegateAuction: hands authority over the record to the low-latency
/// execution domain so bids turn around fast. Nothing else of the record —
/// and never the vault — changes.
pub fn handle_delegate_auction(auction: &mut AuctionState, caller: AccountId) -> (r: Result<
    (),
    OutcryError,
>)
    ensures
        r == delegate_outcome(*old(auction), caller),
        *final(auction) == delegate_next(*old(auction), caller),
        final(auction).status == old(auction).status,
        final(auction).deposits@ == old(auction).deposits@,
        old(auction).wf() ==> final(auction).wf(),
        r is Ok ==> final(auction).owner_domain == DomainOwner::Delegated,
{
    if caller != auction.seller {
        return Err(OutcryError::UnauthorizedSeller);
    }
    if auction.owner_domain != DomainOwner::BaseOwned {
        return Err(OutcryError::WrongDomain);
    }
    auction.owner_domain = DomainOwner::Delegated;
    Ok(())
}

/// UndelegateAuction: returns authority over the record to the base domain,
/// completing the handshake. Nothing else of the record changes.
pub fn handle_undelegate_auction(auction: &mut AuctionState, caller: AccountId) -> (r: Result<
    (),
    OutcryError,
>)
    ensures
        r == undelegate_outcome(*old(auction), caller),
        *final(auction) == undelegate_next(*old(auction), caller),
        final(auction).status == old(auction).status,
        final(auction).deposits@ == old(auction).deposits@,
        old(auction).wf() ==> final(auction).wf(),
        r is Ok ==> final(auction).owner_domain == DomainOwner::BaseOwned,
{
    if caller != auction.seller {
        return Err(OutcryError::UnauthorizedSeller);
    }
    if auction.owner_domain != DomainOwner::Delegated {
        return Err(OutcryError::WrongDomain);
    }
    auction.owner_domain = DomainOwner::BaseOwned;
    Ok(())
}

} // verus!
