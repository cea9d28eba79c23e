//! The two refund protocols. Both share one invariant: a bidder never
//! receives more than their own recorded deposit, and the record is zeroed
//! before the value transfer is issued, so a retried call finds nothing left
//! to refund.

use vstd::prelude::*;
use crate::errors::OutcryError;
use crate::events::RefundClaimed;
use crate::state::{
    balanced, ledger_set, lemma_index_of_bidder, lemma_ledger_set_effect, lemma_recorded_le_sum,
    recorded_deposit, same_auction_header, AccountId, AuctionState, AuctionStatus, AuctionVault,
    BidderDeposit, DepositEntry, DomainOwner,
};

verus! {

/// What ClaimRefund returns: available only once the auction is Settled or
/// Cancelled, and only to a bidder whose slot still holds a non-zero amount;
/// then it pays out exactly that amount.
pub open spec fn refund_outcome(
    status: AuctionStatus,
    deposits: Seq<DepositEntry>,
    b: AccountId,
) -> Result<RefundClaimed, OutcryError> {
    if status != AuctionStatus::Settled && status != AuctionStatus::Cancelled {
        Err(OutcryError::RefundNotAvailable)
    } else if recorded_deposit(deposits, b) == 0 {
        Err(OutcryError::NothingToRefund)
    } else {
        Ok(RefundClaimed { bidder: b, amount: recorded_deposit(deposits, b) as u64 })
    }
}

/// The ledger after ClaimRefund: the bidder's slot is zeroed on success
/// (never removed, so indices stay stable), untouched on failure.
pub open spec fn refund_next(
    status: AuctionStatus,
    deposits: Seq<DepositEntry>,
    b: AccountId,
) -> Seq<DepositEntry> {
    if refund_outcome(status, deposits, b) is Ok {
        ledger_set(deposits, b, 0)
    } else {
        deposits
    }
}

/// ClaimRefund, the normal path: drains the bidder's recorded deposit from
/// the vault once the auction is Settled or Cancelled. The slot is zeroed in
/// the same atomic step as the vault debit, so a second claim fails with
/// NothingToRefund. Fails with RefundNotAvailable in every status where
/// refunds are not open yet — in particular while Created or Active,
/// regardless of the deposit amount.
pub fn handle_claim_refund(
    auction: &mut AuctionState,
    vault: &mut AuctionVault,
    bidder: AccountId,
) -> (r: Result<RefundClaimed, OutcryError>)
    requires
        old(auction).wf(),
        balanced(*old(auction), *old(vault)),
    ensures
        r == refund_outcome(old(auction).status, old(auction).deposits@, bidder),
        final(auction).deposits@ == refund_next(
            old(auction).status,
            old(auction).deposits@,
            bidder,
        ),
        final(auction).wf(),
        same_auction_header(*old(auction), *final(auction)),
        balanced(*final(auction), *final(vault)),
        final(vault).bump == old(vault).bump,
        r is Err ==> *final(auction) == *old(auction) && *final(vault) == *old(vault),
        r is Ok ==> recorded_deposit(final(auction).deposits@, bidder) == 0,
        r is Ok ==> final(vault).balance == old(vault).balance - recorded_deposit(
            old(auction).deposits@,
            bidder,
        ),
        r is Ok ==> forall|b2: AccountId|
            b2 != bidder ==> recorded_deposit(final(auction).deposits@, b2) == recorded_deposit(
                old(auction).deposits@,
                b2,
            ),
        final(auction).deposits@.len() == old(auction).deposits@.len(),
        forall|k: int|
            0 <= k < old(auction).deposits@.len() ==> final(auction).deposits@[k].bidder == old(
                auction,
            ).deposits@[k].bidder,
        old(auction).status == AuctionStatus::Created || old(auction).status
            == AuctionStatus::Active ==> r == Err::<RefundClaimed, OutcryError>(
            OutcryError::RefundNotAvailable,
        ),
{
    if !(auction.status == AuctionStatus::Settled || auction.status == AuctionStatus::Cancelled) {
        return Err(OutcryError::RefundNotAvailable);
    }
    match auction.find_deposit(bidder) {
        None => Err(OutcryError::NothingToRefund),
        Some(p) => {
            let idx = p.0;
            let refund_amount = p.1;
            proof {
                lemma_index_of_bidder(auction.deposits@, bidder, idx as int);
            }
            if refund_amount == 0 {
                return Err(OutcryError::NothingToRefund);
            }
            proof {
                lemma_recorded_le_sum(auction.deposits@, bidder);
            }
            let ghost s0 = auction.deposits@;
            auction.deposits[idx] = DepositEntry { bidder, amount: 0 };
            vault.balance = vault.balance - refund_amount;
            proof {
                assert(auction.deposits@ =~= ledger_set(s0, bidder, 0));
                lemma_ledger_set_effect(s0, bidder, 0);
            }
            Ok(RefundClaimed { bidder, amount: refund_amount })
        },
    }
}

/// What EmergencyRefund returns: it pays out the mirror record's full
/// amount, but only while the auction record is *not* owned by the base
/// domain — the explicit "delegation stuck" signal. When the record is
/// owned normally the caller must use ClaimRefund instead.
pub open spec fn emergency_outcome(rec: BidderDeposit, auction_owner: DomainOwner) -> Result<
    RefundClaimed,
    OutcryError,
> {
    if rec.amount == 0 {
        Err(OutcryError::NothingToRefund)
    } else if auction_owner == DomainOwner::BaseOwned {
        Err(OutcryError::InvalidAuctionStatus)
    } else {
        Ok(RefundClaimed { bidder: rec.bidder, amount: rec.amount })
    }
}

/// EmergencyRefund, the availability guarantee: drains the mirrored
/// BidderDeposit from the vault when the auction record is stuck on the
/// other domain. The mirror amount is zeroed before the transfer (the
/// caller then closes the record), so a retried call finds nothing left.
/// While the record is owned by the base domain this path always fails,
/// regardless of the deposit amount.
pub fn handle_emergency_refund(
    record: &mut BidderDeposit,
    vault: &mut AuctionVault,
    auction_owner: DomainOwner,
) -> (r: Result<RefundClaimed, OutcryError>)
    requires
        old(record).amount <= old(vault).balance,
    ensures
        r == emergency_outcome(*old(record), auction_owner),
        auction_owner == DomainOwner::BaseOwned ==> r is Err,
        r is Err ==> *final(record) == *old(record) && *final(vault) == *old(vault),
        r is Ok ==> *final(record) == (BidderDeposit { amount: 0, ..*old(record) }),
        r is Ok ==> final(vault).balance == old(vault).balance - old(record).amount,
        final(vault).bump == old(vault).bump,
        final(record).amount == 0 || *final(record) == *old(record),
{
    if record.amount == 0 {
        return Err(OutcryError::NothingToRefund);
    }
    if auction_owner == DomainOwner::BaseOwned {
        return Err(OutcryError::InvalidAuctionStatus);
    }
    let refund_amount = record.amount;
    record.amount = 0;
    vault.balance = vault.balance - refund_amount;
    Ok(RefundClaimed { bidder: record.bidder, amount: refund_amount })
}

} // verus!
