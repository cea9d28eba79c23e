//! The deposit path: locking a bidder's funds into the escrow vault while
//! the ledger records their cumulative total. The ledger update and the
//! vault credit commit together or not at all.

use vstd::prelude::*;
use crate::errors::OutcryError;
use crate::events::DepositMade;
use crate::state::{
    balanced, has_bidder, ledger_set, lemma_index_of_bidder, lemma_ledger_push_effect,
    lemma_ledger_set_effect, recorded_deposit, same_auction_header, sum_amounts, unique_bidders,
    AccountId,
    AuctionState, AuctionStatus, AuctionVault, DepositEntry, MAX_BIDDERS,
};

verus! {

/// The ledger after a deposit: the bidder's slot grows by `amount`, or a
/// new slot is appended when the bidder has none yet.
pub open spec fn ledger_deposit(s: Seq<DepositEntry>, b: AccountId, amount: u64) -> Seq<
    DepositEntry,
> {
    if has_bidder(s, b) {
        ledger_set(s, b, (recorded_deposit(s, b) + amount) as u64)
    } else {
        s.push(DepositEntry { bidder: b, amount })
    }
}

/// What Deposit returns: it is accepted only while the auction is Created
/// and for a positive amount; the bidder's cumulative total and the vault
/// balance are both checked against overflow, and a new bidder needs a free
/// ledger slot.
pub open spec fn deposit_outcome(
    a: AuctionState,
    v: AuctionVault,
    b: AccountId,
    amount: u64,
) -> Result<DepositMade, OutcryError> {
    if a.status != AuctionStatus::Created {
        Err(OutcryError::InvalidAuctionStatus)
    } else if amount == 0 {
        Err(OutcryError::InvalidDepositAmount)
    } else if has_bidder(a.deposits@, b) && recorded_deposit(a.deposits@, b) + amount
        > u64::MAX {
        Err(OutcryError::ArithmeticOverflow)
    } else if !has_bidder(a.deposits@, b) && a.deposits@.len() >= MAX_BIDDERS {
        Err(OutcryError::AuctionFull)
    } else if v.balance + amount > u64::MAX {
        Err(OutcryError::ArithmeticOverflow)
    } else {
        Ok(
            DepositMade {
                bidder: b,
                amount,
                total_deposit: (recorded_deposit(a.deposits@, b) + amount) as u64,
            },
        )
    }
}

/// A deposit applied to the ledger grows exactly that bidder's recorded
/// deposit by the amount, leaves every other bidder's untouched, keeps the
/// slots unique, and adds the amount to the ledger total.
pub proof fn lemma_ledger_deposit_effect(s: Seq<DepositEntry>, b: AccountId, amount: u64)
    requires
        unique_bidders(s),
        recorded_deposit(s, b) + amount <= u64::MAX,
    ensures
        unique_bidders(ledger_deposit(s, b, amount)),
        has_bidder(ledger_deposit(s, b, amount), b),
        recorded_deposit(ledger_deposit(s, b, amount), b) == recorded_deposit(s, b) + amount,
        forall|b2: AccountId|
            b2 != b ==> recorded_deposit(ledger_deposit(s, b, amount), b2) == recorded_deposit(
                s,
                b2,
            ),
        sum_amounts(ledger_deposit(s, b, amount)) == sum_amounts(s) + amount,
        ledger_deposit(s, b, amount).len() == if has_bidder(s, b) {
            s.len() as int
        } else {
            s.len() + 1int
        },
{
    if has_bidder(s, b) {
        lemma_ledger_set_effect(s, b, (recorded_deposit(s, b) + amount) as u64);
    } else {
        lemma_ledger_push_effect(s, b, amount);
    }
}

/// Deposit: adds `amount` to the bidder's recorded deposit (appending a new
/// slot when needed) and credits the vault by the same amount, atomically.
/// Every failure leaves both the record and the vault untouched.
pub fn handle_deposit(
    auction: &mut AuctionState,
    vault: &mut AuctionVault,
    bidder: AccountId,
    amount: u64,
) -> (r: Result<DepositMade, OutcryError>)
    requires
        old(auction).wf(),
    ensures
        r == deposit_outcome(*old(auction), *old(vault), bidder, amount),
        final(auction).wf(),
        same_auction_header(*old(auction), *final(auction)),
        final(vault).bump == old(vault).bump,
        r is Err ==> *final(auction) == *old(auction) && *final(vault) == *old(vault),
        r is Ok ==> final(auction).deposits@ == ledger_deposit(
            old(auction).deposits@,
            bidder,
            amount,
        ),
        r is Ok ==> final(vault).balance == old(vault).balance + amount,
        r is Ok ==> recorded_deposit(final(auction).deposits@, bidder) == recorded_deposit(
            old(auction).deposits@,
            bidder,
        ) + amount,
        r is Ok ==> forall|b2: AccountId|
            b2 != bidder ==> recorded_deposit(final(auction).deposits@, b2) == recorded_deposit(
                old(auction).deposits@,
                b2,
            ),
        r is Ok ==> sum_amounts(final(auction).deposits@) == sum_amounts(old(auction).deposits@)
            + amount,
        balanced(*old(auction), *old(vault)) ==> balanced(*final(auction), *final(vault)),
{
    if auction.status != AuctionStatus::Created {
        return Err(OutcryError::InvalidAuctionStatus);
    }
    if amount == 0 {
        return Err(OutcryError::InvalidDepositAmount);
    }
    match auction.find_deposit(bidder) {
        Some(p) => {
            let idx = p.0;
            let existing = p.1;
            proof {
                lemma_index_of_bidder(auction.deposits@, bidder, idx as int);
            }
            if existing > u64::MAX - amount {
                return Err(OutcryError::ArithmeticOverflow);
            }
            if vault.balance > u64::MAX - amount {
                return Err(OutcryError::ArithmeticOverflow);
            }
            let new_amount = existing + amount;
            let ghost s0 = auction.deposits@;
            auction.deposits[idx] = DepositEntry { bidder, amount: new_amount };
            vault.balance = vault.balance + amount;
            proof {
                assert(auction.deposits@ =~= ledger_set(s0, bidder, new_amount));
                lemma_ledger_set_effect(s0, bidder, new_amount);
            }
            Ok(DepositMade { bidder, amount, total_deposit: new_amount })
        },
        None => {
            if auction.deposits.len() >= MAX_BIDDERS {
                return Err(OutcryError::AuctionFull);
            }
            if vault.balance > u64::MAX - amount {
                return Err(OutcryError::ArithmeticOverflow);
            }
            let ghost s0 = auction.deposits@;
            auction.deposits.push(DepositEntry { bidder, amount });
            vault.balance = vault.balance + amount;
            proof {
                lemma_ledger_push_effect(s0, bidder, amount);
            }
            Ok(DepositMade { bidder, amount, total_deposit: amount })
        },
    }
}

} // verus!
