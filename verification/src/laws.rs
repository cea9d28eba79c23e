//! The library's cross-operation guarantees, each proved from the spec-level
//! transitions that the executable operations are specified against:
//! deposits accumulate exactly, refunds never replay, and the permissionless
//! end crank converges to a single transition.

use vstd::prelude::*;
use crate::auction::{end_next, end_outcome};
use crate::errors::OutcryError;
use crate::escrow::{ledger_deposit, lemma_ledger_deposit_effect};
use crate::refund::{refund_next, refund_outcome};
use crate::state::{
    has_bidder, lemma_ledger_set_effect, recorded_deposit, sum_amounts, unique_bidders, AccountId,
    AuctionState, AuctionStatus, DepositEntry,
};

verus! {

/// Total of a sequence of deposit amounts.
pub open spec fn sum_u64(amts: Seq<u64>) -> int
    decreases amts.len(),
{
    if amts.len() == 0 {
        0
    } else {
        sum_u64(amts.drop_last()) + amts.last()
    }
}

/// The ledger after this bidder deposits the given amounts, one after the
/// other.
pub open spec fn ledger_after_deposits(
    s: Seq<DepositEntry>,
    b: AccountId,
    amts: Seq<u64>,
) -> Seq<DepositEntry>
    decreases amts.len(),
{
    if amts.len() == 0 {
        s
    } else {
        ledger_deposit(ledger_after_deposits(s, b, amts.drop_last()), b, amts.last())
    }
}

/// A total of deposit amounts is never negative.
pub proof fn lemma_sum_u64_nonneg(amts: Seq<u64>)
    ensures
        sum_u64(amts) >= 0,
    decreases amts.len(),
{
    if amts.len() > 0 {
        lemma_sum_u64_nonneg(amts.drop_last());
    }
}

/// Deposits accumulate exactly: after any sequence of deposits by one
/// bidder, that bidder's recorded deposit has grown by exactly the sum of
/// the amounts — no loss, no double count — every other bidder's recorded
/// deposit is untouched, and the ledger total (which a balanced vault
/// mirrors as its balance) has grown by the same sum.
pub proof fn lemma_deposits_accumulate(s: Seq<DepositEntry>, b: AccountId, amts: Seq<u64>)
    requires
        unique_bidders(s),
        recorded_deposit(s, b) + sum_u64(amts) <= u64::MAX,
    ensures
        unique_bidders(ledger_after_deposits(s, b, amts)),
        recorded_deposit(ledger_after_deposits(s, b, amts), b) == recorded_deposit(s, b)
            + sum_u64(amts),
        forall|b2: AccountId|
            b2 != b ==> recorded_deposit(ledger_after_deposits(s, b, amts), b2)
                == recorded_deposit(s, b2),
        sum_amounts(ledger_after_deposits(s, b, amts)) == sum_amounts(s) + sum_u64(amts),
    decreases amts.len(),
{
    if amts.len() > 0 {
        let prefix = amts.drop_last();
        lemma_sum_u64_nonneg(prefix);
        lemma_deposits_accumulate(s, b, prefix);
        lemma_ledger_deposit_effect(ledger_after_deposits(s, b, prefix), b, amts.last());
    }
}

/// Refunds never replay: a successful claim pays out exactly the bidder's
/// recorded deposit, and against the ledger it leaves behind, a second
/// claim by the same bidder always fails with NothingToRefund, whatever the
/// (still Settled or Cancelled) status. Every other bidder's claim is
/// unaffected.
pub proof fn lemma_refund_no_replay(
    status: AuctionStatus,
    deposits: Seq<DepositEntry>,
    b: AccountId,
)
    requires
        unique_bidders(deposits),
        refund_outcome(status, deposits, b) is Ok,
    ensures
        refund_outcome(status, deposits, b) == Ok::<crate::events::RefundClaimed, OutcryError>(
            crate::events::RefundClaimed {
                bidder: b,
                amount: recorded_deposit(deposits, b) as u64,
            },
        ),
        recorded_deposit(refund_next(status, deposits, b), b) == 0,
        refund_outcome(status, refund_next(status, deposits, b), b) == Err::<
            crate::events::RefundClaimed,
            OutcryError,
        >(OutcryError::NothingToRefund),
        forall|b2: AccountId|
            b2 != b ==> recorded_deposit(refund_next(status, deposits, b), b2)
                == recorded_deposit(deposits, b2),
{
    lemma_ledger_set_effect(deposits, b, 0);
}

/// The end crank converges: against an Active auction, every invocation
/// strictly before `end_time` fails with AuctionStillActive and changes
/// nothing; the first invocation at or after `end_time` flips the status to
/// Ended exactly once; and every invocation after that fails because the
/// status is no longer Active, leaving the record as the first success left
/// it.
pub proof fn lemma_end_crank_converges(a: AuctionState, t1: i64, t2: i64)
    requires
        a.status == AuctionStatus::Active,
    ensures
        t1 < a.end_time ==> end_outcome(a, t1) == Err::<crate::events::AuctionEnded, OutcryError>(
            OutcryError::AuctionStillActive,
        ) && end_next(a, t1) == a,
        t1 >= a.end_time ==> end_outcome(a, t1) is Ok && end_next(a, t1).status
            == AuctionStatus::Ended,
        t1 >= a.end_time ==> end_outcome(end_next(a, t1), t2) == Err::<
            crate::events::AuctionEnded,
            OutcryError,
        >(OutcryError::InvalidAuctionStatus) && end_next(end_next(a, t1), t2) == end_next(a, t1),
{
}

/// One active slot per bidder: under the ledger invariant, any two slots
/// that belong to the same bidder are the same slot.
pub proof fn lemma_one_slot_per_bidder(s: Seq<DepositEntry>, i: int, j: int)
    requires
        unique_bidders(s),
        0 <= i < s.len(),
        0 <= j < s.len(),
        s[i].bidder == s[j].bidder,
    ensures
        i == j,
{
}

/// A bidder with no slot has nothing recorded.
pub proof fn lemma_absent_bidder_zero(s: Seq<DepositEntry>, b: AccountId)
    requires
        !has_bidder(s, b),
    ensures
        recorded_deposit(s, b) == 0,
{
}

} // verus!
