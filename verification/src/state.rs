//! Data model: the auction record, its deposit ledger, the escrow vault and
//! the per-bidder records, together with the spec-level view of the ledger
//! (per-bidder recorded deposit, total of all deposits) and the lemmas that
//! relate ledger edits to that view.

use vstd::prelude::*;

verus! {

/// Maximum number of distinct bidders one auction's deposit ledger can hold.
pub const MAX_BIDDERS: usize = 50;

/// Identity of an account on the settlement ledger (seller, bidder, asset,
/// session signer). Only equality of identities matters to the core.
#[derive(Clone, Copy, PartialEq, Eq, Structural, Debug)]
pub struct AccountId {
    pub id: u64,
}

/// Lifecycle of one auction. Transitions are monotone along
/// Created -> Active -> Ended -> Settled; Cancelled is reachable only from
/// Created or Active.
#[derive(Clone, Copy, PartialEq, Eq, Structural, Debug)]
pub enum AuctionStatus {
    Created,
    Active,
    Ended,
    Settled,
    Cancelled,
}

/// Which execution domain currently owns the auction record. Funds never
/// leave the base domain; only the record's authority moves.
#[derive(Clone, Copy, PartialEq, Eq, Structural, Debug)]
pub enum DomainOwner {
    BaseOwned,
    Delegated,
}

/// One slot of the deposit ledger. `amount == 0` means "refunded / inactive",
/// not "absent": slots are zeroed, never removed, so indices stay stable.
#[derive(Clone, Copy, PartialEq, Eq, Structural, Debug)]
pub struct DepositEntry {
    pub bidder: AccountId,
    pub amount: u64,
}

/// The authoritative status/timing/high-bid record for one auction.
pub struct AuctionState {
    pub status: AuctionStatus,
    pub seller: AccountId,
    pub asset: AccountId,
    pub highest_bidder: Option<AccountId>,
    pub current_bid: u64,
    pub bid_count: u64,
    pub start_time: i64,
    pub end_time: i64,
    pub duration_seconds: u64,
    pub deposits: Vec<DepositEntry>,
    pub owner_domain: DomainOwner,
    pub bump: u8,
}

/// Pooled balance holder scoped to one auction; custodies all locked
/// bidder funds on the base settlement domain.
pub struct AuctionVault {
    pub balance: u64,
    pub bump: u8,
}

/// Emergency-path mirror record, one per (auction, bidder) pair. Supports
/// refund when the auction record is not reachable on the base domain.
pub struct BidderDeposit {
    pub auction: AccountId,
    pub bidder: AccountId,
    pub amount: u64,
    pub bump: u8,
}

/// Re-creatable binding from an ephemeral signing credential to a real
/// bidder identity, scoped per auction and per bidder.
pub struct SessionToken {
    pub auction: AccountId,
    pub bidder: AccountId,
    pub session_signer: AccountId,
    pub created_at: i64,
    pub bump: u8,
}

/// No two slots of the ledger belong to the same bidder.
pub open spec fn unique_bidders(s: Seq<DepositEntry>) -> bool {
    forall|i: int, j: int| 0 <= i < j < s.len() ==> s[i].bidder != s[j].bidder
}

/// Some slot of the ledger belongs to this bidder.
pub open spec fn has_bidder(s: Seq<DepositEntry>, b: AccountId) -> bool {
    exists|i: int| 0 <= i < s.len() && s[i].bidder == b
}

/// The index of this bidder's slot; meaningful only under `unique_bidders`
/// when `has_bidder` holds.
pub open spec fn index_of_bidder(s: Seq<DepositEntry>, b: AccountId) -> int {
    choose|i: int| 0 <= i < s.len() && s[i].bidder == b
}

/// The amount this bidder currently has locked: the amount in their slot,
/// or 0 when they have no slot.
pub open spec fn recorded_deposit(s: Seq<DepositEntry>, b: AccountId) -> int {
    if has_bidder(s, b) {
        s[index_of_bidder(s, b)].amount as int
    } else {
        0
    }
}

/// Total of all amounts currently recorded in the ledger.
pub open spec fn sum_amounts(s: Seq<DepositEntry>) -> int
    decreases s.len(),
{
    if s.len() == 0 {
        0
    } else {
        sum_amounts(s.drop_last()) + s.last().amount
    }
}

/// The vault custodies exactly the total of the recorded deposits.
pub open spec fn balanced(a: AuctionState, v: AuctionVault) -> bool {
    v.balance == sum_amounts(a.deposits@)
}

impl AuctionState {
    /// Well-formedness of the record: one slot per bidder, ledger within
    /// capacity.
    pub open spec fn wf(self) -> bool {
        &&& unique_bidders(self.deposits@)
        &&& self.deposits@.len() <= MAX_BIDDERS
    }

    /// Linear scan of the deposit ledger for this bidder's slot, as the
    /// slot index and the amount currently recorded there.
    pub fn find_deposit(&self, bidder: AccountId) -> (r: Option<(usize, u64)>)
        ensures
            match r {
                Some(p) => {
                    &&& (p.0 as int) < self.deposits@.len()
                    &&& self.deposits@[p.0 as int].bidder == bidder
                    &&& self.deposits@[p.0 as int].amount == p.1
                    &&& forall|j: int| 0 <= j < p.0 as int ==> self.deposits@[j].bidder != bidder
                },
                None => !has_bidder(self.deposits@, bidder),
            },
    {
        let n = self.deposits.len();
        let mut i: usize = 0;
        while i < n
            invariant
                i <= n,
                n == self.deposits@.len(),
                forall|j: int| 0 <= j < i ==> self.deposits@[j].bidder != bidder,
            decreases n - i,
        {
            if self.deposits[i].bidder == bidder {
                return Some((i, self.deposits[i].amount));
            }
            i += 1;
        }
        None
    }
}

/// Under `unique_bidders`, any slot holding `b` is the slot that
/// `index_of_bidder` and `recorded_deposit` speak of.
pub proof fn lemma_index_of_bidder(s: Seq<DepositEntry>, b: AccountId, i: int)
    requires
        unique_bidders(s),
        0 <= i < s.len(),
        s[i].bidder == b,
    ensures
        has_bidder(s, b),
        index_of_bidder(s, b) == i,
        recorded_deposit(s, b) == s[i].amount,
{
    assert(has_bidder(s, b));
    let j = index_of_bidder(s, b);
    assert(0 <= j < s.len() && s[j].bidder == b);
}

/// The ledger total is never negative.
pub proof fn lemma_sum_nonneg(s: Seq<DepositEntry>)
    ensures
        sum_amounts(s) >= 0,
    decreases s.len(),
{
    if s.len() > 0 {
        lemma_sum_nonneg(s.drop_last());
    }
}

/// Appending a slot adds exactly its amount to the ledger total.
pub proof fn lemma_sum_push(s: Seq<DepositEntry>, e: DepositEntry)
    ensures
        sum_amounts(s.push(e)) == sum_amounts(s) + e.amount,
{
    assert(s.push(e).drop_last() =~= s);
    assert(s.push(e).last() == e);
}

/// Overwriting one slot changes the ledger total by exactly the
/// difference of the amounts.
pub proof fn lemma_sum_update(s: Seq<DepositEntry>, i: int, e: DepositEntry)
    requires
        0 <= i < s.len(),
    ensures
        sum_amounts(s.update(i, e)) == sum_amounts(s) - s[i].amount + e.amount,
    decreases s.len(),
{
    let t = s.update(i, e);
    if i == s.len() - 1 {
        assert(t.drop_last() =~= s.drop_last());
        assert(t.last() == e);
    } else {
        assert(t.drop_last() =~= s.drop_last().update(i, e));
        assert(t.last() == s.last());
        lemma_sum_update(s.drop_last(), i, e);
    }
}

/// No single slot holds more than the ledger total.
pub proof fn lemma_entry_le_sum(s: Seq<DepositEntry>, i: int)
    requires
        0 <= i < s.len(),
    ensures
        s[i].amount <= sum_amounts(s),
    decreases s.len(),
{
    if i == s.len() - 1 {
        lemma_sum_nonneg(s.drop_last());
    } else {
        assert(s.drop_last()[i] == s[i]);
        lemma_entry_le_sum(s.drop_last(), i);
    }
}

/// No bidder's recorded deposit exceeds the ledger total.
pub proof fn lemma_recorded_le_sum(s: Seq<DepositEntry>, b: AccountId)
    ensures
        0 <= recorded_deposit(s, b) <= sum_amounts(s),
{
    lemma_sum_nonneg(s);
    if has_bidder(s, b) {
        let i = index_of_bidder(s, b);
        assert(0 <= i < s.len() && s[i].bidder == b);
        lemma_entry_le_sum(s, i);
    }
}

/// All fields of the auction record other than the deposit ledger agree.
pub open spec fn same_auction_header(a0: AuctionState, a1: AuctionState) -> bool {
    &&& a1.status == a0.status
    &&& a1.seller == a0.seller
    &&& a1.asset == a0.asset
    &&& a1.highest_bidder == a0.highest_bidder
    &&& a1.current_bid == a0.current_bid
    &&& a1.bid_count == a0.bid_count
    &&& a1.start_time == a0.start_time
    &&& a1.end_time == a0.end_time
    &&& a1.duration_seconds == a0.duration_seconds
    &&& a1.owner_domain == a0.owner_domain
    &&& a1.bump == a0.bump
}

/// The ledger with this bidder's slot overwritten to hold amount `v`;
/// meaningful only when the bidder has a slot.
pub open spec fn ledger_set(s: Seq<DepositEntry>, b: AccountId, v: u64) -> Seq<DepositEntry> {
    s.update(index_of_bidder(s, b), DepositEntry { bidder: b, amount: v })
}

/// Overwriting a present bidder's slot sets exactly that bidder's recorded
/// deposit, leaves every other bidder's untouched, keeps the slots' owners
/// and positions stable, and moves the total by the difference.
pub proof fn lemma_ledger_set_effect(s: Seq<DepositEntry>, b: AccountId, v: u64)
    requires
        unique_bidders(s),
        has_bidder(s, b),
    ensures
        unique_bidders(ledger_set(s, b, v)),
        ledger_set(s, b, v).len() == s.len(),
        forall|k: int| 0 <= k < s.len() ==> ledger_set(s, b, v)[k].bidder == s[k].bidder,
        recorded_deposit(ledger_set(s, b, v), b) == v,
        forall|b2: AccountId|
            b2 != b ==> recorded_deposit(ledger_set(s, b, v), b2) == recorded_deposit(s, b2),
        sum_amounts(ledger_set(s, b, v)) == sum_amounts(s) - recorded_deposit(s, b) + v,
{
    let i = index_of_bidder(s, b);
    assert(0 <= i < s.len() && s[i].bidder == b);
    lemma_index_of_bidder(s, b, i);
    let t = ledger_set(s, b, v);
    lemma_sum_update(s, i, DepositEntry { bidder: b, amount: v });
    assert(forall|k: int| 0 <= k < s.len() ==> t[k].bidder == s[k].bidder);
    lemma_index_of_bidder(t, b, i);
    assert forall|b2: AccountId|
        b2 != b implies recorded_deposit(t, b2) == recorded_deposit(s, b2) by {
        if has_bidder(s, b2) {
            let j = index_of_bidder(s, b2);
            assert(0 <= j < s.len() && s[j].bidder == b2);
            lemma_index_of_bidder(s, b2, j);
            lemma_index_of_bidder(t, b2, j);
        } else {
            if has_bidder(t, b2) {
                let j = index_of_bidder(t, b2);
                assert(0 <= j < t.len() && t[j].bidder == b2);
                assert(s[j].bidder == b2);
            }
        }
    }
}

/// Appending a slot for an absent bidder records exactly the new amount for
/// that bidder, leaves every other bidder's deposit untouched, keeps the
/// existing slots stable, and adds the amount to the total.
pub proof fn lemma_ledger_push_effect(s: Seq<DepositEntry>, b: AccountId, v: u64)
    requires
        unique_bidders(s),
        !has_bidder(s, b),
    ensures
        unique_bidders(s.push(DepositEntry { bidder: b, amount: v })),
        s.push(DepositEntry { bidder: b, amount: v }).len() == s.len() + 1,
        forall|k: int|
            0 <= k < s.len() ==> s.push(DepositEntry { bidder: b, amount: v })[k] == s[k],
        has_bidder(s.push(DepositEntry { bidder: b, amount: v }), b),
        recorded_deposit(s.push(DepositEntry { bidder: b, amount: v }), b) == v,
        forall|b2: AccountId|
            b2 != b ==> recorded_deposit(s.push(DepositEntry { bidder: b, amount: v }), b2)
                == recorded_deposit(s, b2),
        sum_amounts(s.push(DepositEntry { bidder: b, amount: v })) == sum_amounts(s) + v,
{
    let e = DepositEntry { bidder: b, amount: v };
    let t = s.push(e);
    lemma_sum_push(s, e);
    assert(forall|k: int| 0 <= k < s.len() ==> t[k] == s[k]);
    assert(t[s.len() as int] == e);
    assert forall|i: int, j: int| 0 <= i < j < t.len() implies t[i].bidder != t[j].bidder by {
        if j < s.len() {
            assert(t[i].bidder == s[i].bidder && t[j].bidder == s[j].bidder);
        } else {
            assert(t[j].bidder == b);
            assert(t[i].bidder == s[i].bidder);
            assert(s[i].bidder != b);
        }
    }
    lemma_index_of_bidder(t, b, s.len() as int);
    assert forall|b2: AccountId|
        b2 != b implies recorded_deposit(t, b2) == recorded_deposit(s, b2) by {
        if has_bidder(s, b2) {
            let j = index_of_bidder(s, b2);
            assert(0 <= j < s.len() && s[j].bidder == b2);
            lemma_index_of_bidder(s, b2, j);
            lemma_index_of_bidder(t, b2, j);
        } else {
            if has_bidder(t, b2) {
                let j = index_of_bidder(t, b2);
                assert(0 <= j < t.len() && t[j].bidder == b2);
                assert(j != s.len());
                assert(s[j].bidder == b2);
            }
        }
    }
}

} // verus!
