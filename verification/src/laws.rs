use vstd::prelude::*;

use crate::error::AuctionError;
use crate::escrow::lemma_owed_when_none_refunded;
use crate::escrow::total_amounts;
use crate::escrow::Escrow;

verus! {

/// While the auction is unresolved and nothing has been refunded — in
/// particular after any sequence of valid Bid calls — the bid vault balance
/// equals the sum of every bidder's cumulative `amount`.
pub proof fn lemma_bids_fund_the_vault(s: Escrow)
    requires
        s.wf(),
        !s.auction.resolved,
        forall|i: int| 0 <= i < s.bids@.len() ==> !s.bids@[i].refunded,
    ensures
        s.vault_bid as int == total_amounts(s.bids@),
{
    lemma_owed_when_none_refunded(s.bids@);
}

/// `highest_bid_amount` equals the maximum over all bid records' amounts, and
/// a positive maximum is achieved by a record owned by `highest_bidder` (the
/// strictly-greater comparison in Bid means the first bidder to reach that
/// amount keeps it on a tie).
pub proof fn lemma_leaderboard_is_max(s: Escrow)
    requires
        s.wf(),
    ensures
        forall|i: int|
            0 <= i < s.bids@.len() ==> s.bids@[i].amount <= s.auction.highest_bid_amount,
        s.auction.highest_bid_amount > 0 ==> exists|i: int|
            0 <= i < s.bids@.len() && s.bids@[i].bidder == s.auction.highest_bidder
                && s.bids@[i].amount == s.auction.highest_bid_amount,
{
    if s.auction.highest_bid_amount > 0 {
        let k = choose|k: int|
            0 <= k < s.bids@.len() && s.bids@[k].bidder == s.auction.highest_bidder
                && s.bids@[k].amount == s.auction.highest_bid_amount && !s.bids@[k].refunded;
        assert(0 <= k < s.bids@.len() && s.bids@[k].bidder == s.auction.highest_bidder
            && s.bids@[k].amount == s.auction.highest_bid_amount);
    }
}

/// A tie never dethrones the incumbent: a bid whose new cumulative total
/// does not strictly beat the leaderboard leaves the leader untouched, so
/// the first bidder to reach an amount keeps it.
pub proof fn lemma_tie_does_not_dethrone(
    s: Escrow,
    post: Escrow,
    bidder: u64,
    additional_amount: u64,
    now: i64,
)
    requires
        s.bid_step(post, bidder, additional_amount, now),
        s.record_of(bidder).amount + additional_amount <= s.auction.highest_bid_amount,
    ensures
        post.auction == s.auction,
{
}

/// Cancel is terminal: it destroys the auction record, so no operation can
/// ever touch the auction again — termination goes through exactly one of
/// Cancel or the resolve-and-refund flow.
pub proof fn lemma_cancel_is_terminal(s: Escrow, post: Escrow, now: i64)
    requires
        s.cancel_step(post, now),
    ensures
        !post.live,
{
}

/// Resolve settles exactly once: after a resolve has been applied, every
/// later resolve attempt is rejected with AlreadyResolved, and a rejected
/// resolve leaves the state — and so the funds — untouched by contract.
pub proof fn lemma_resolve_is_idempotent_safe(s: Escrow, post: Escrow, t1: i64, t2: i64)
    requires
        s.resolve_check(t1) is None,
        s.resolve_step(post, t1),
        t2 >= t1,
    ensures
        post.resolve_check(t2) == Some(AuctionError::AlreadyResolved),
{
}

/// ClaimRefund never succeeds for the highest bidder's own record.
pub proof fn lemma_winner_cannot_claim_refund(s: Escrow, bidder: u64, now: i64)
    requires
        s.refund_check(bidder, now) is None,
    ensures
        bidder != s.auction.highest_bidder,
{
}

/// Cancel never succeeds on an auction that received a bid, whenever it is
/// attempted.
pub proof fn lemma_cancel_rejects_bids(s: Escrow, now: i64)
    requires
        s.auction.highest_bid_amount > 0,
    ensures
        s.cancel_check(now) is Some,
{
}

/// The winner-payout path and Cancel are mutually exclusive: no state lets
/// Resolve bind a winner and also lets Cancel pass its checks.
pub proof fn lemma_resolve_cancel_exclusive(s: Escrow, t1: i64, t2: i64)
    ensures
        !(s.auction.highest_bid_amount > 0 && s.resolve_check(t1) is None && s.cancel_check(t2)
            is None),
{
}

/// Once resolved, an auction can never be cancelled: its leaderboard stays
/// positive, so every later Cancel attempt is rejected.
pub proof fn lemma_no_cancel_after_resolve(s: Escrow, post: Escrow, t1: i64, t2: i64)
    requires
        s.auction.highest_bid_amount > 0,
        s.resolve_check(t1) is None,
        s.resolve_step(post, t1),
    ensures
        post.cancel_check(t2) is Some,
{
}

/// The record backing the leaderboard is never refunded: whenever a winner
/// is established, that bidder's own record still holds its full amount.
pub proof fn lemma_winner_record_never_refunded(s: Escrow)
    requires
        s.wf(),
        s.auction.highest_bid_amount > 0,
    ensures
        s.has_bidder(s.auction.highest_bidder),
        !s.record_of(s.auction.highest_bidder).refunded,
        s.record_of(s.auction.highest_bidder).amount == s.auction.highest_bid_amount,
{
    let w = s.auction.highest_bidder;
    let k = choose|k: int|
        0 <= k < s.bids@.len() && s.bids@[k].bidder == w && s.bids@[k].amount
            == s.auction.highest_bid_amount && !s.bids@[k].refunded;
    s.lemma_idx_unique(k, w);
}

/// A cumulative amount never decreases: Bid only adds to the caller's own
/// record and leaves every other record untouched.
pub proof fn lemma_amounts_never_decrease(
    s: Escrow,
    post: Escrow,
    bidder: u64,
    additional_amount: u64,
    now: i64,
)
    requires
        s.bid_check(bidder, additional_amount, now) is None,
        s.bid_step(post, bidder, additional_amount, now),
    ensures
        forall|j: int|
            0 <= j < s.bids@.len() ==> post.bids@[j].amount >= s.bids@[j].amount,
{
    if s.has_bidder(bidder) {
        let i = s.idx_of(bidder);
        assert(0 <= i < s.bids@.len() && s.bids@[i].bidder == bidder);
        assert(forall|j: int|
            0 <= j < s.bids@.len() && j != i ==> post.bids@[j] == s.bids@[j]);
        assert(post.bids@[i].amount >= s.bids@[i].amount);
    } else {
        assert(forall|j: int| 0 <= j < s.bids@.len() ==> post.bids@[j] == s.bids@[j]);
    }
}

/// Total asset outflow (winner payout, maker payout and all refunds) never
/// exceeds total inflow (the prize deposit and the sum of all bid deposits):
/// each vault balance is inflow minus outflow and can never go negative.
pub proof fn lemma_outflow_bounded_by_inflow(s: Escrow)
    requires
        s.wf(),
    ensures
        s.withdrawn_bid@ <= s.deposited_bid@,
        s.withdrawn_prize@ <= s.deposited_prize@,
        s.withdrawn_bid@ + s.withdrawn_prize@ <= s.deposited_bid@ + s.deposited_prize@,
{
}

} // verus!
