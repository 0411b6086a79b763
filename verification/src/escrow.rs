use vstd::prelude::*;

use crate::error::AuctionError;
use crate::state::Auction;
use crate::state::Bids;

verus! {

/// How much of one bid record's deposit is still inside the bid vault.
/// A refunded record has already been paid back; when `excluded` names the
/// winning bidder, that bidder's deposit has already gone to the maker.
pub open spec fn vault_share(b: Bids, excluded: Option<u64>) -> int {
    if b.refunded || excluded == Some(b.bidder) {
        0
    } else {
        b.amount as int
    }
}

/// Total bid-asset amount the vault still owes across a sequence of bid
/// records.
pub open spec fn owed(bids: Seq<Bids>, excluded: Option<u64>) -> int
    decreases bids.len(),
{
    if bids.len() == 0 {
        0
    } else {
        owed(bids.drop_last(), excluded) + vault_share(bids.last(), excluded)
    }
}

/// Plain sum of the cumulative `amount` fields of all bid records.
pub open spec fn total_amounts(bids: Seq<Bids>) -> int
    decreases bids.len(),
{
    if bids.len() == 0 {
        0
    } else {
        total_amounts(bids.drop_last()) + bids.last().amount as int
    }
}

pub proof fn lemma_owed_nonneg(bids: Seq<Bids>, excluded: Option<u64>)
    ensures
        owed(bids, excluded) >= 0,
    decreases bids.len(),
{
    if bids.len() > 0 {
        lemma_owed_nonneg(bids.drop_last(), excluded);
    }
}

pub proof fn lemma_owed_push(bids: Seq<Bids>, b: Bids, excluded: Option<u64>)
    ensures
        owed(bids.push(b), excluded) == owed(bids, excluded) + vault_share(b, excluded),
{
    assert(bids.push(b).drop_last() =~= bids);
    assert(bids.push(b).last() == b);
}

pub proof fn lemma_owed_update(bids: Seq<Bids>, i: int, b: Bids, excluded: Option<u64>)
    requires
        0 <= i < bids.len(),
    ensures
        owed(bids.update(i, b), excluded) == owed(bids, excluded) - vault_share(bids[i], excluded)
            + vault_share(b, excluded),
    decreases bids.len(),
{
    let upd = bids.update(i, b);
    if i == bids.len() - 1 {
        assert(upd.drop_last() =~= bids.drop_last());
        assert(upd.last() == b);
    } else {
        assert(upd.drop_last() =~= bids.drop_last().update(i, b));
        assert(upd.last() == bids.last());
        lemma_owed_update(bids.drop_last(), i, b, excluded);
    }
}

pub proof fn lemma_owed_lower_bound(bids: Seq<Bids>, i: int, excluded: Option<u64>)
    requires
        0 <= i < bids.len(),
    ensures
        owed(bids, excluded) >= vault_share(bids[i], excluded),
    decreases bids.len(),
{
    if i == bids.len() - 1 {
        lemma_owed_nonneg(bids.drop_last(), excluded);
    } else {
        lemma_owed_lower_bound(bids.drop_last(), i, excluded);
        assert(bids.drop_last()[i] == bids[i]);
    }
}

pub proof fn lemma_owed_no_share(bids: Seq<Bids>, w: u64)
    requires
        forall|i: int| 0 <= i < bids.len() ==> bids[i].bidder != w,
    ensures
        owed(bids, Some(w)) == owed(bids, None::<u64>),
    decreases bids.len(),
{
    if bids.len() > 0 {
        assert(forall|i: int| 0 <= i < bids.drop_last().len() ==> bids.drop_last()[i] == bids[i]);
        lemma_owed_no_share(bids.drop_last(), w);
    }
}

/// Paying the winner's deposit out of the vault removes exactly the winner's
/// cumulative amount, provided the winner owns exactly one, unrefunded record.
pub proof fn lemma_owed_exclude_winner(bids: Seq<Bids>, k: int, w: u64)
    requires
        0 <= k < bids.len(),
        bids[k].bidder == w,
        !bids[k].refunded,
        forall|i: int| 0 <= i < bids.len() && i != k ==> bids[i].bidder != w,
    ensures
        owed(bids, Some(w)) == owed(bids, None::<u64>) - bids[k].amount,
    decreases bids.len(),
{
    if k == bids.len() - 1 {
        assert(forall|i: int| 0 <= i < bids.drop_last().len() ==> bids.drop_last()[i] == bids[i]);
        lemma_owed_no_share(bids.drop_last(), w);
    } else {
        assert(forall|i: int| 0 <= i < bids.drop_last().len() ==> bids.drop_last()[i] == bids[i]);
        lemma_owed_exclude_winner(bids.drop_last(), k, w);
        assert(bids.last().bidder != w);
    }
}

pub proof fn lemma_owed_all_zero(bids: Seq<Bids>, excluded: Option<u64>)
    requires
        forall|i: int| 0 <= i < bids.len() ==> bids[i].amount == 0,
    ensures
        owed(bids, excluded) == 0,
    decreases bids.len(),
{
    if bids.len() > 0 {
        assert(forall|i: int| 0 <= i < bids.drop_last().len() ==> bids.drop_last()[i] == bids[i]);
        lemma_owed_all_zero(bids.drop_last(), excluded);
        assert(bids.last().amount == 0);
    }
}

/// While no record has been refunded, the vault owes exactly the sum of all
/// cumulative amounts.
pub proof fn lemma_owed_when_none_refunded(bids: Seq<Bids>)
    requires
        forall|i: int| 0 <= i < bids.len() ==> !bids[i].refunded,
    ensures
        owed(bids, None::<u64>) == total_amounts(bids),
    decreases bids.len(),
{
    if bids.len() > 0 {
        assert(forall|i: int| 0 <= i < bids.drop_last().len() ==> bids.drop_last()[i] == bids[i]);
        lemma_owed_when_none_refunded(bids.drop_last());
        assert(!bids.last().refunded);
    }
}

/// The whole custodial state of one auction: the auction record, every bid
/// record, both vault balances, and the part of the host that the logic
/// depends on (whether the auction account still exists, and the latest
/// timestamp an applied operation has observed — the host clock is monotone).
/// The ghost fields account for every unit that ever entered or left custody.
pub struct Escrow {
    pub auction: Auction,
    pub bids: Vec<Bids>,
    /// Prize units held by the prize vault.
    pub vault_nft: u64,
    /// Bid-asset units held by the bid vault.
    pub vault_bid: u64,
    /// False once the auction record has been destroyed (by Cancel, or by the
    /// refund that drained the bid vault).
    pub live: bool,
    /// Timestamp of the latest operation that changed this state.
    pub clock: i64,
    /// Total bid-asset ever deposited into the bid vault.
    pub deposited_bid: Ghost<int>,
    /// Total bid-asset ever paid out of the bid vault.
    pub withdrawn_bid: Ghost<int>,
    /// Prize units ever deposited into the prize vault.
    pub deposited_prize: Ghost<int>,
    /// Prize units ever paid out of the prize vault.
    pub withdrawn_prize: Ghost<int>,
}

impl Escrow {
    /// The bidder whose deposit has already left the vault: the winner, once
    /// the auction is resolved.
    pub open spec fn excluded(self) -> Option<u64> {
        if self.auction.resolved {
            Some(self.auction.highest_bidder)
        } else {
            None
        }
    }

    pub open spec fn has_bidder(self, bidder: u64) -> bool {
        exists|i: int| 0 <= i < self.bids@.len() && self.bids@[i].bidder == bidder
    }

    /// The index of `bidder`'s record; meaningful only when `has_bidder` holds
    /// (well-formed states hold at most one record per bidder).
    pub open spec fn idx_of(self, bidder: u64) -> int {
        choose|i: int| 0 <= i < self.bids@.len() && self.bids@[i].bidder == bidder
    }

    /// The bid record an operation binds to: the bidder's existing record, or
    /// the fresh record a first Bid call starts from.
    pub open spec fn record_of(self, bidder: u64) -> Bids {
        if self.has_bidder(bidder) {
            self.bids@[self.idx_of(bidder)]
        } else {
            Bids { bidder: bidder, amount: 0, refunded: false }
        }
    }

    /// Exactly one record per (auction, bidder) pair.
    pub open spec fn bidders_distinct(self) -> bool {
        forall|i: int, j: int|
            0 <= i < j < self.bids@.len() ==> self.bids@[i].bidder != self.bids@[j].bidder
    }

    /// The leaderboard is the single source of truth for the current winner:
    /// no record beats it, and a positive leader amount is achieved by an
    /// unrefunded record owned by `highest_bidder`.
    pub open spec fn leaderboard_ok(self) -> bool {
        &&& forall|i: int|
            0 <= i < self.bids@.len() ==> self.bids@[i].amount
                <= self.auction.highest_bid_amount
        &&& self.auction.highest_bid_amount > 0 ==> exists|i: int|
            0 <= i < self.bids@.len() && self.bids@[i].bidder == self.auction.highest_bidder
                && self.bids@[i].amount == self.auction.highest_bid_amount
                && !self.bids@[i].refunded
    }

    /// Custody accounting: the bid vault holds exactly what it still owes,
    /// every balance equals inflow minus outflow, and the prize unit sits in
    /// the prize vault until settlement or cancellation pays it out.
    pub open spec fn funds_ok(self) -> bool {
        &&& self.vault_bid as int == owed(self.bids@, self.excluded())
        &&& self.vault_bid as int == self.deposited_bid@ - self.withdrawn_bid@
        &&& self.withdrawn_bid@ >= 0
        &&& self.deposited_prize@ == 1
        &&& self.withdrawn_prize@ >= 0
        &&& self.vault_nft as int == self.deposited_prize@ - self.withdrawn_prize@
        &&& (self.live && !self.auction.resolved ==> self.vault_nft == 1)
        &&& (self.auction.resolved ==> self.vault_nft == 0)
    }

    /// The host polls a monotone clock: anything that only happens at or after
    /// the deadline (settlement, refunds) proves the deadline has passed.
    pub open spec fn clock_ok(self) -> bool {
        &&& (self.auction.resolved ==> self.clock >= self.auction.end_time)
        &&& forall|i: int|
            0 <= i < self.bids@.len() && self.bids@[i].refunded ==> self.clock
                >= self.auction.end_time
    }

    /// Well-formedness: every state reachable from `make_auction` satisfies
    /// this, and every operation preserves it.
    pub open spec fn wf(self) -> bool {
        &&& self.bidders_distinct()
        &&& self.leaderboard_ok()
        &&& self.funds_ok()
        &&& self.clock_ok()
        &&& (self.auction.resolved ==> self.auction.highest_bid_amount > 0)
    }

    /// When Bid is rejected, and why: bidding closes at `end_time`, and a
    /// deposit that would overflow the bidder's cumulative amount or the
    /// vault balance aborts instead of wrapping.
    pub open spec fn bid_check(self, bidder: u64, additional_amount: u64, now: i64) -> Option<
        AuctionError,
    > {
        if now >= self.auction.end_time {
            Some(AuctionError::AuctionEnded)
        } else if self.record_of(bidder).amount + additional_amount > u64::MAX {
            Some(AuctionError::Overflow)
        } else if self.vault_bid + additional_amount > u64::MAX {
            Some(AuctionError::Overflow)
        } else {
            None
        }
    }

    /// What a successful Bid does: the caller's record grows by
    /// `additional_amount` (created first if absent), the leaderboard moves
    /// only when the new cumulative amount strictly beats it, and the deposit
    /// enters the bid vault.
    pub open spec fn bid_step(self, post: Escrow, bidder: u64, additional_amount: u64, now: i64) -> bool {
        let old_rec = self.record_of(bidder);
        let new_amount = (old_rec.amount + additional_amount) as u64;
        let new_rec = Bids {
            bidder: bidder,
            amount: new_amount,
            refunded: if old_rec.amount == 0 {
                false
            } else {
                old_rec.refunded
            },
        };
        &&& post.bids@ == (if self.has_bidder(bidder) {
            self.bids@.update(self.idx_of(bidder), new_rec)
        } else {
            self.bids@.push(new_rec)
        })
        &&& post.auction == (if new_amount > self.auction.highest_bid_amount {
            Auction {
                highest_bidder: bidder,
                highest_bid_amount: new_amount,
                ..self.auction
            }
        } else {
            self.auction
        })
        &&& post.vault_bid == self.vault_bid + additional_amount
        &&& post.vault_nft == self.vault_nft
        &&& post.live == self.live
        &&& post.clock == now
        &&& post.deposited_bid@ == self.deposited_bid@ + additional_amount
        &&& post.withdrawn_bid@ == self.withdrawn_bid@
        &&& post.deposited_prize@ == self.deposited_prize@
        &&& post.withdrawn_prize@ == self.withdrawn_prize@
    }

    /// When ClaimRefund is rejected, and why: only after the deadline, never
    /// for the current highest bidder, and never twice for the same record.
    pub open spec fn refund_check(self, bidder: u64, now: i64) -> Option<AuctionError> {
        if now < self.auction.end_time {
            Some(AuctionError::AuctionNotEnded)
        } else if bidder == self.auction.highest_bidder {
            Some(AuctionError::CannotRefundWinner)
        } else if self.record_of(bidder).refunded {
            Some(AuctionError::AlreadyRefunded)
        } else {
            None
        }
    }

    /// What a successful ClaimRefund does: the caller's deposit leaves the
    /// vault, the record is marked refunded, and the refund that drains the
    /// vault destroys the auction record.
    pub open spec fn refund_step(self, post: Escrow, bidder: u64, now: i64) -> bool {
        let i = self.idx_of(bidder);
        let rec = self.bids@[i];
        &&& post.bids@ == self.bids@.update(i, (Bids { refunded: true, ..rec }))
        &&& post.auction == self.auction
        &&& post.vault_bid == self.vault_bid - rec.amount
        &&& post.vault_nft == self.vault_nft
        &&& post.live == (self.vault_bid != rec.amount)
        &&& post.clock == now
        &&& post.deposited_bid@ == self.deposited_bid@
        &&& post.withdrawn_bid@ == self.withdrawn_bid@ + rec.amount
        &&& post.deposited_prize@ == self.deposited_prize@
        &&& post.withdrawn_prize@ == self.withdrawn_prize@
    }

    /// When Resolve is rejected, and why: only after the deadline, and only
    /// once.
    pub open spec fn resolve_check(self, now: i64) -> Option<AuctionError> {
        if now < self.auction.end_time {
            Some(AuctionError::AuctionNotEnded)
        } else if self.auction.resolved {
            Some(AuctionError::AlreadyResolved)
        } else {
            None
        }
    }

    /// What a successful Resolve does: the auction is marked resolved before
    /// anything moves, the prize unit goes to the winner, and the winning
    /// amount goes to the maker.
    pub open spec fn resolve_step(self, post: Escrow, now: i64) -> bool {
        &&& post.auction == (Auction { resolved: true, ..self.auction })
        &&& post.bids@ == self.bids@
        &&& post.vault_nft == self.vault_nft - 1
        &&& post.vault_bid == self.vault_bid - self.auction.highest_bid_amount
        &&& post.live == self.live
        &&& post.clock == now
        &&& post.deposited_bid@ == self.deposited_bid@
        &&& post.withdrawn_bid@ == self.withdrawn_bid@ + self.auction.highest_bid_amount
        &&& post.deposited_prize@ == self.deposited_prize@
        &&& post.withdrawn_prize@ == self.withdrawn_prize@ + 1
    }

    /// When Cancel is rejected, and why: only after the deadline, and only
    /// when nobody ever bid.
    pub open spec fn cancel_check(self, now: i64) -> Option<AuctionError> {
        if now < self.auction.end_time {
            Some(AuctionError::AuctionNotEnded)
        } else if self.auction.highest_bid_amount > 0 {
            Some(AuctionError::AuctionHasBids)
        } else {
            None
        }
    }

    /// What a successful Cancel does: the prize unit returns to the maker,
    /// both vaults close (the bid vault is already empty), and the auction
    /// record is destroyed.
    pub open spec fn cancel_step(self, post: Escrow, now: i64) -> bool {
        &&& post.auction == self.auction
        &&& post.bids@ == self.bids@
        &&& post.vault_nft == self.vault_nft - 1
        &&& post.vault_bid == self.vault_bid
        &&& post.live == false
        &&& post.clock == now
        &&& post.deposited_bid@ == self.deposited_bid@
        &&& post.withdrawn_bid@ == self.withdrawn_bid@
        &&& post.deposited_prize@ == self.deposited_prize@
        &&& post.withdrawn_prize@ == self.withdrawn_prize@ + 1
    }

    /// In a state with distinct bidders, any index holding `bidder`'s record
    /// is the one `idx_of` picks.
    pub proof fn lemma_idx_unique(self, i: int, bidder: u64)
        requires
            self.bidders_distinct(),
            0 <= i < self.bids@.len(),
            self.bids@[i].bidder == bidder,
        ensures
            self.has_bidder(bidder),
            self.idx_of(bidder) == i,
    {
        assert(self.has_bidder(bidder));
        let k = self.idx_of(bidder);
        assert(0 <= k < self.bids@.len() && self.bids@[k].bidder == bidder);
        if k != i {
            if k < i {
                assert(self.bids@[k].bidder != self.bids@[i].bidder);
            } else {
                assert(self.bids@[i].bidder != self.bids@[k].bidder);
            }
        }
    }
}

} // verus!
