//! Escrow-mediated sealed-duration auction.
//!
//! A maker deposits one unit of a unique asset (the prize) and accepts
//! competing deposits of a fungible asset until a deadline; afterwards the
//! highest bidder receives the prize, the maker receives the winning amount,
//! and every other bidder can recover their deposit. The custodial fund
//! movement is modelled on plain balances; the host ledger (account storage,
//! token transfers, the clock) sits outside and mirrors the decisions made
//! here.

use vstd::prelude::*;

pub mod bid;
pub mod cancel;
pub mod error;
pub mod escrow;
pub mod laws;
pub mod make;
pub mod refund;
pub mod resolve;
pub mod state;

use crate::bid::Bid;
use crate::cancel::CancelAuction;
use crate::error::AuctionError;
use crate::escrow::lemma_owed_all_zero;
use crate::escrow::lemma_owed_exclude_winner;
use crate::escrow::lemma_owed_lower_bound;
use crate::escrow::lemma_owed_push;
use crate::escrow::lemma_owed_update;
use crate::escrow::vault_share;
use crate::escrow::Escrow;
use crate::make::MakeAuction;
use crate::refund::ClaimRefund;
use crate::resolve::ResolveAuction;
use crate::state::Auction;
use crate::state::Bids;
use crate::state::NO_BIDDER;

verus! {

/// Linear scan for the record owned by `bidder`; the host does this by
/// deriving the record's address from (auction, bidder).
fn find_bidder(bids: &Vec<Bids>, bidder: u64) -> (r: Option<usize>)
    ensures
        match r {
            Some(i) => i < bids@.len() && bids@[i as int].bidder == bidder,
            None => forall|j: int| 0 <= j < bids@.len() ==> bids@[j].bidder != bidder,
        },
{
    let mut i: usize = 0;
    while i < bids.len()
        invariant
            i <= bids@.len(),
            forall|j: int| 0 <= j < i ==> bids@[j].bidder != bidder,
        decreases bids@.len() - i,
    {
        if bids[i].bidder == bidder {
            return Some(i);
        }
        i = i + 1;
    }
    None
}

/// Creates an auction: allocates the record and both custodial vaults, and
/// moves the one prize unit into the prize vault, all atomically. The prize
/// is a unique asset, so the deposit is exactly its indivisible unit.
pub fn make_auction(seed: u64, maker: u64, nft_mint: u64, bid_mint: u64, end_time: i64, deposit_amount: u64) -> (e: Escrow)
    requires
        deposit_amount == 1,
    ensures
        e.wf(),
        e.live,
        e.auction == (Auction {
            seed,
            maker,
            nft_mint,
            bid_mint,
            end_time,
            resolved: false,
            highest_bidder: NO_BIDDER,
            highest_bid_amount: 0,
        }),
        e.bids@.len() == 0,
        e.vault_nft == 1,
        e.vault_bid == 0,
        e.clock == i64::MIN,
        e.deposited_bid@ == 0,
        e.withdrawn_bid@ == 0,
        e.deposited_prize@ == 1,
        e.withdrawn_prize@ == 0,
{
    let mut ctx = MakeAuction {
        maker,
        nft_mint,
        bid_mint,
        auction: Auction {
            seed: 0,
            maker: 0,
            nft_mint: 0,
            bid_mint: 0,
            end_time: 0,
            resolved: false,
            highest_bidder: NO_BIDDER,
            highest_bid_amount: 0,
        },
        vault_nft: 0,
        vault_bid: 0,
    };
    ctx.init_auction(seed, end_time);
    ctx.deposit_prize(deposit_amount);
    let e = Escrow {
        auction: ctx.auction,
        bids: Vec::new(),
        vault_nft: ctx.vault_nft,
        vault_bid: ctx.vault_bid,
        live: true,
        clock: i64::MIN,
        deposited_bid: Ghost(0),
        withdrawn_bid: Ghost(0),
        deposited_prize: Ghost(1),
        withdrawn_prize: Ghost(0),
    };
    e
}

/// Places or tops up a bid before the deadline. A first call creates the
/// caller's bid record; later calls accumulate into it. The leaderboard moves
/// only when the new cumulative total strictly beats it, so a tie never
/// dethrones the incumbent. The host serializes invocations and its clock is
/// monotone, which `now >= clock` reflects.
pub fn bid(escrow: &mut Escrow, bidder: u64, additional_amount: u64, now: i64) -> (r: Result<
    (),
    AuctionError,
>)
    requires
        old(escrow).wf(),
        old(escrow).live,
        now >= old(escrow).clock,
    ensures
        final(escrow).wf(),
        match r {
            Ok(()) => {
                &&& old(escrow).bid_check(bidder, additional_amount, now) is None
                &&& old(escrow).bid_step(*final(escrow), bidder, additional_amount, now)
            },
            Err(e) => {
                &&& old(escrow).bid_check(bidder, additional_amount, now) == Some(e)
                &&& *final(escrow) == *old(escrow)
            },
        },
{
    let ghost pre = *escrow;
    let idx_opt = find_bidder(&escrow.bids, bidder);
    let rec: Bids = match idx_opt {
        Some(i) => escrow.bids[i],
        None => Bids { bidder, amount: 0, refunded: false },
    };
    proof {
        match idx_opt {
            Some(i) => {
                pre.lemma_idx_unique(i as int, bidder);
            },
            None => {
                assert(!pre.has_bidder(bidder));
            },
        }
        assert(pre.record_of(bidder) == rec);
    }
    let mut ctx = Bid { bidder, auction: escrow.auction, bid_record: rec, vault_bid: escrow.vault_bid };
    match ctx.bid(additional_amount, now) {
        Ok(()) => {
            escrow.auction = ctx.auction;
            escrow.vault_bid = ctx.vault_bid;
            let ghost new_rec = ctx.bid_record;
            match idx_opt {
                Some(i) => {
                    escrow.bids[i] = ctx.bid_record;
                },
                None => {
                    escrow.bids.push(ctx.bid_record);
                },
            }
            escrow.clock = now;
            escrow.deposited_bid = Ghost(escrow.deposited_bid@ + additional_amount);
            proof {
                lemma_bid_preserves_wf(pre, *escrow, idx_opt, new_rec, bidder, additional_amount, now);
            }
            Ok(())
        },
        Err(e) => Err(e),
    }
}

/// A successful Bid keeps the escrow well formed: before the deadline nothing
/// has been refunded and nothing is resolved, so growing one record grows the
/// vault debt by exactly the deposit, and the leaderboard stays the maximum.
proof fn lemma_bid_preserves_wf(
    pre: Escrow,
    post: Escrow,
    idx_opt: Option<usize>,
    new_rec: Bids,
    bidder: u64,
    additional_amount: u64,
    now: i64,
)
    requires
        pre.wf(),
        pre.live,
        now >= pre.clock,
        pre.bid_check(bidder, additional_amount, now) is None,
        new_rec == (Bids {
            bidder,
            amount: (pre.record_of(bidder).amount + additional_amount) as u64,
            refunded: if pre.record_of(bidder).amount == 0 {
                false
            } else {
                pre.record_of(bidder).refunded
            },
        }),
        match idx_opt {
            Some(i) => pre.has_bidder(bidder) && pre.idx_of(bidder) == i && post.bids@
                == pre.bids@.update(i as int, new_rec),
            None => !pre.has_bidder(bidder) && post.bids@ == pre.bids@.push(new_rec),
        },
        post.auction == (if new_rec.amount > pre.auction.highest_bid_amount {
            Auction {
                highest_bidder: bidder,
                highest_bid_amount: new_rec.amount,
                ..pre.auction
            }
        } else {
            pre.auction
        }),
        post.vault_bid == pre.vault_bid + additional_amount,
        post.vault_nft == pre.vault_nft,
        post.live == pre.live,
        post.clock == now,
        post.deposited_bid@ == pre.deposited_bid@ + additional_amount,
        post.withdrawn_bid@ == pre.withdrawn_bid@,
        post.deposited_prize@ == pre.deposited_prize@,
        post.withdrawn_prize@ == pre.withdrawn_prize@,
    ensures
        post.wf(),
        pre.bid_step(post, bidder, additional_amount, now),
{
    let old_rec = pre.record_of(bidder);
    assert(now < pre.auction.end_time);
    // Before the deadline the monotone clock rules out any past refund or
    // settlement.
    assert(pre.clock < pre.auction.end_time);
    assert(!pre.auction.resolved);
    assert(forall|i: int| 0 <= i < pre.bids@.len() ==> !pre.bids@[i].refunded);
    assert(!new_rec.refunded);
    assert(pre.excluded() == None::<u64>);
    assert(post.excluded() == None::<u64>);

    match idx_opt {
        Some(i) => {
            let i = i as int;
            assert(pre.bids@[i] == old_rec);
            // Same owner at the same index: distinctness is untouched.
            assert(post.bids@.len() == pre.bids@.len());
            assert(forall|k: int| 0 <= k < post.bids@.len() && k != i ==> post.bids@[k]
                == pre.bids@[k]);
            assert(post.bids@[i] == new_rec);
            assert(new_rec.bidder == pre.bids@[i].bidder);
            assert(post.bidders_distinct());
            lemma_owed_update(pre.bids@, i, new_rec, None::<u64>);
            assert(vault_share(old_rec, None::<u64>) == old_rec.amount);
            assert(vault_share(new_rec, None::<u64>) == new_rec.amount);
        },
        None => {
            assert(forall|j: int| 0 <= j < pre.bids@.len() ==> pre.bids@[j].bidder != bidder);
            assert(forall|k: int| 0 <= k < pre.bids@.len() ==> post.bids@[k] == pre.bids@[k]);
            assert(post.bids@[pre.bids@.len() as int] == new_rec);
            assert(post.bidders_distinct());
            lemma_owed_push(pre.bids@, new_rec, None::<u64>);
            assert(old_rec.amount == 0);
        },
    }

    // The leaderboard stays the maximum, achieved by an unrefunded record.
    if new_rec.amount > pre.auction.highest_bid_amount {
        assert(post.auction.highest_bid_amount == new_rec.amount);
        let ghost w: int = match idx_opt {
            Some(i) => i as int,
            None => pre.bids@.len() as int,
        };
        assert(post.bids@[w] == new_rec);
        assert(post.leaderboard_ok());
    } else {
        assert(post.auction == pre.auction);
        if pre.auction.highest_bid_amount > 0 {
            let k = choose|k: int|
                0 <= k < pre.bids@.len() && pre.bids@[k].bidder == pre.auction.highest_bidder
                    && pre.bids@[k].amount == pre.auction.highest_bid_amount
                    && !pre.bids@[k].refunded;
            match idx_opt {
                Some(i) => {
                    if k == i as int {
                        // The leader topped up by zero: the record still
                        // achieves the maximum.
                        assert(new_rec.amount == pre.auction.highest_bid_amount);
                        assert(post.bids@[k].bidder == pre.auction.highest_bidder);
                        assert(post.bids@[k].amount == post.auction.highest_bid_amount);
                    } else {
                        assert(post.bids@[k] == pre.bids@[k]);
                    }
                },
                None => {
                    assert(post.bids@[k] == pre.bids@[k]);
                },
            }
        }
        assert(post.leaderboard_ok());
    }

    assert(post.funds_ok());
    assert(forall|i: int| 0 <= i < post.bids@.len() ==> !post.bids@[i].refunded);
    assert(post.clock_ok());
    assert(post.wf());
    assert(pre.bid_step(post, bidder, additional_amount, now));
}

/// Pays a losing bidder their whole cumulative deposit back, after the
/// deadline. The refund that drains the bid vault is terminal: it closes the
/// vault and destroys the auction record, their rent going to the maker. The
/// caller must own a bid record for this auction; the host enforces that by
/// address derivation before the logic runs.
pub fn claim_refund(escrow: &mut Escrow, bidder: u64, now: i64) -> (r: Result<(), AuctionError>)
    requires
        old(escrow).wf(),
        old(escrow).live,
        now >= old(escrow).clock,
        old(escrow).has_bidder(bidder),
    ensures
        final(escrow).wf(),
        match r {
            Ok(()) => {
                &&& old(escrow).refund_check(bidder, now) is None
                &&& old(escrow).refund_step(*final(escrow), bidder, now)
            },
            Err(e) => {
                &&& old(escrow).refund_check(bidder, now) == Some(e)
                &&& *final(escrow) == *old(escrow)
            },
        },
{
    let ghost pre = *escrow;
    let idx_opt = find_bidder(&escrow.bids, bidder);
    let i = match idx_opt {
        Some(i) => i,
        None => {
            proof {
                let k = pre.idx_of(bidder);
                assert(0 <= k < pre.bids@.len() && pre.bids@[k].bidder == bidder);
                assert(false);
            }
            // Unreachable: the caller's record was just shown to exist.
            return Err(AuctionError::AlreadyRefunded);
        },
    };
    proof {
        pre.lemma_idx_unique(i as int, bidder);
    }
    let rec = escrow.bids[i];
    let mut ctx = ClaimRefund {
        bidder,
        maker: escrow.auction.maker,
        auction: escrow.auction,
        bid_record: rec,
        vault_bid: escrow.vault_bid,
    };
    proof {
        // A refundable record still has its whole deposit inside the vault.
        if ctx.check(now) is None {
            assert(vault_share(rec, pre.excluded()) == rec.amount);
            lemma_owed_lower_bound(pre.bids@, i as int, pre.excluded());
        }
    }
    match ctx.refund_loser(now) {
        Ok(()) => {
            escrow.bids[i] = ctx.bid_record;
            escrow.vault_bid = ctx.vault_bid;
            if escrow.vault_bid == 0 {
                // Last one out: close the drained vault and destroy the
                // auction record, their rent going back to the maker.
                escrow.live = false;
            }
            escrow.clock = now;
            escrow.withdrawn_bid = Ghost(escrow.withdrawn_bid@ + rec.amount);
            proof {
                lemma_refund_preserves_wf(pre, *escrow, i as int, bidder, now);
            }
            Ok(())
        },
        Err(e) => Err(e),
    }
}

/// A successful ClaimRefund keeps the escrow well formed: the record it marks
/// refunded is not the winner's, so the leaderboard witness survives, and the
/// vault debt drops by exactly the amount paid out.
proof fn lemma_refund_preserves_wf(pre: Escrow, post: Escrow, i: int, bidder: u64, now: i64)
    requires
        pre.wf(),
        pre.live,
        now >= pre.clock,
        pre.has_bidder(bidder),
        pre.idx_of(bidder) == i,
        0 <= i < pre.bids@.len(),
        pre.bids@[i].bidder == bidder,
        pre.refund_check(bidder, now) is None,
        post.bids@ == pre.bids@.update(i, (Bids { refunded: true, ..pre.bids@[i] })),
        post.auction == pre.auction,
        post.vault_bid == pre.vault_bid - pre.bids@[i].amount,
        post.vault_nft == pre.vault_nft,
        post.live == (pre.vault_bid != pre.bids@[i].amount),
        post.clock == now,
        post.deposited_bid@ == pre.deposited_bid@,
        post.withdrawn_bid@ == pre.withdrawn_bid@ + pre.bids@[i].amount,
        post.deposited_prize@ == pre.deposited_prize@,
        post.withdrawn_prize@ == pre.withdrawn_prize@,
    ensures
        post.wf(),
        pre.refund_step(post, bidder, now),
{
    let rec = pre.bids@[i];
    let new_rec = Bids { refunded: true, ..rec };
    assert(now >= pre.auction.end_time);
    assert(!rec.refunded);
    assert(rec.bidder != pre.auction.highest_bidder);

    // Same owner at the same index: distinctness is untouched.
    assert(forall|k: int| 0 <= k < post.bids@.len() && k != i ==> post.bids@[k] == pre.bids@[k]);
    assert(post.bids@[i] == new_rec);
    assert(post.bidders_distinct());

    // The winner's witness record is someone else's, so it survives.
    if pre.auction.highest_bid_amount > 0 {
        let k = choose|k: int|
            0 <= k < pre.bids@.len() && pre.bids@[k].bidder == pre.auction.highest_bidder
                && pre.bids@[k].amount == pre.auction.highest_bid_amount && !pre.bids@[k].refunded;
        assert(k != i);
        assert(post.bids@[k] == pre.bids@[k]);
    }
    assert(post.leaderboard_ok());

    // The vault debt drops by exactly the amount paid out.
    assert(post.excluded() == pre.excluded());
    assert(vault_share(rec, pre.excluded()) == rec.amount);
    assert(vault_share(new_rec, pre.excluded()) == 0);
    lemma_owed_update(pre.bids@, i, new_rec, pre.excluded());
    assert(post.funds_ok());

    assert(post.clock_ok());
    assert(post.wf());
    assert(pre.refund_step(post, bidder, now));
}

/// Settles the auction exactly once, any time after the deadline: the prize
/// unit to the winner, the winning amount to the maker. Anyone may crank this;
/// no privileged resolver exists. Binding the winner's bid record presupposes
/// a winner was established (`highest_bid_amount > 0`), so a no-bid auction
/// must terminate through `cancel_auction` instead.
pub fn resolve_auction(escrow: &mut Escrow, now: i64) -> (r: Result<(), AuctionError>)
    requires
        old(escrow).wf(),
        old(escrow).live,
        now >= old(escrow).clock,
        old(escrow).auction.highest_bid_amount > 0,
    ensures
        final(escrow).wf(),
        match r {
            Ok(()) => {
                &&& old(escrow).resolve_check(now) is None
                &&& old(escrow).resolve_step(*final(escrow), now)
            },
            Err(e) => {
                &&& old(escrow).resolve_check(now) == Some(e)
                &&& *final(escrow) == *old(escrow)
            },
        },
{
    let ghost pre = *escrow;
    let ghost w = pre.auction.highest_bidder;
    proof {
        // A positive leaderboard amount is achieved by some record.
        let k = choose|k: int|
            0 <= k < pre.bids@.len() && pre.bids@[k].bidder == w && pre.bids@[k].amount
                == pre.auction.highest_bid_amount && !pre.bids@[k].refunded;
        assert(0 <= k < pre.bids@.len() && pre.bids@[k].bidder == w);
    }
    let idx_opt = find_bidder(&escrow.bids, escrow.auction.highest_bidder);
    let i = match idx_opt {
        Some(i) => i,
        None => {
            proof {
                let k = choose|k: int|
                    0 <= k < pre.bids@.len() && pre.bids@[k].bidder == w && pre.bids@[k].amount
                        == pre.auction.highest_bid_amount && !pre.bids@[k].refunded;
                assert(pre.bids@[k].bidder != w);
                assert(false);
            }
            // Unreachable: the winner's record was just shown to exist.
            return Err(AuctionError::AlreadyResolved);
        },
    };
    proof {
        // The found record is the unique witness: it achieves the maximum.
        let k = choose|k: int|
            0 <= k < pre.bids@.len() && pre.bids@[k].bidder == w && pre.bids@[k].amount
                == pre.auction.highest_bid_amount && !pre.bids@[k].refunded;
        pre.lemma_idx_unique(k, w);
        pre.lemma_idx_unique(i as int, w);
        assert(pre.bids@[i as int] == pre.bids@[k]);
    }
    let mut ctx = ResolveAuction {
        auction: escrow.auction,
        winner_bid_record: escrow.bids[i],
        vault_nft: escrow.vault_nft,
        vault_bid: escrow.vault_bid,
    };
    proof {
        // Until settlement, the vault still owes the winner's whole deposit.
        if ctx.check(now) is None {
            assert(vault_share(pre.bids@[i as int], pre.excluded()) == pre.auction.highest_bid_amount);
            lemma_owed_lower_bound(pre.bids@, i as int, pre.excluded());
        }
    }
    match ctx.resolve(now) {
        Ok(()) => {
            escrow.auction = ctx.auction;
            escrow.vault_nft = ctx.vault_nft;
            escrow.vault_bid = ctx.vault_bid;
            escrow.clock = now;
            escrow.withdrawn_bid = Ghost(escrow.withdrawn_bid@ + pre.auction.highest_bid_amount);
            escrow.withdrawn_prize = Ghost(escrow.withdrawn_prize@ + 1);
            proof {
                lemma_resolve_preserves_wf(pre, *escrow, i as int, now);
            }
            Ok(())
        },
        Err(e) => Err(e),
    }
}

/// A successful Resolve keeps the escrow well formed: paying the winner's
/// deposit to the maker removes exactly the winner's share of the vault debt,
/// and the prize vault empties into the winner's hands.
proof fn lemma_resolve_preserves_wf(pre: Escrow, post: Escrow, i: int, now: i64)
    requires
        pre.wf(),
        pre.live,
        now >= pre.clock,
        pre.auction.highest_bid_amount > 0,
        pre.resolve_check(now) is None,
        0 <= i < pre.bids@.len(),
        pre.bids@[i].bidder == pre.auction.highest_bidder,
        pre.bids@[i].amount == pre.auction.highest_bid_amount,
        !pre.bids@[i].refunded,
        post.bids@ == pre.bids@,
        post.auction == (Auction { resolved: true, ..pre.auction }),
        post.vault_nft == pre.vault_nft - 1,
        post.vault_bid == pre.vault_bid - pre.auction.highest_bid_amount,
        post.live == pre.live,
        post.clock == now,
        post.deposited_bid@ == pre.deposited_bid@,
        post.withdrawn_bid@ == pre.withdrawn_bid@ + pre.auction.highest_bid_amount,
        post.deposited_prize@ == pre.deposited_prize@,
        post.withdrawn_prize@ == pre.withdrawn_prize@ + 1,
    ensures
        post.wf(),
        pre.resolve_step(post, now),
{
    let w = pre.auction.highest_bidder;
    assert(now >= pre.auction.end_time);
    assert(!pre.auction.resolved);
    assert(post.bidders_distinct());
    assert(post.leaderboard_ok());

    // Settlement switches the vault debt from "everyone" to "everyone but the
    // winner", which drops it by exactly the winning amount.
    assert(pre.excluded() == None::<u64>);
    assert(post.excluded() == Some(w));
    assert(forall|j: int| 0 <= j < pre.bids@.len() && j != i ==> pre.bids@[j].bidder != w) by {
        assert(forall|j: int|
            0 <= j < pre.bids@.len() && j != i && pre.bids@[j].bidder == w ==> false) by {
            assert(pre.bidders_distinct());
        }
    }
    lemma_owed_exclude_winner(pre.bids@, i, w);
    assert(post.funds_ok());

    assert(post.clock_ok());
    assert(post.wf());
    assert(pre.resolve_step(post, now));
}

/// Recovers the maker's prize from an auction that ended with zero bids; with
/// any bid on the books the resolve-and-refund flow must be used instead, so
/// the two terminal paths are mutually exclusive. Only the maker may sign.
pub fn cancel_auction(escrow: &mut Escrow, caller: u64, now: i64) -> (r: Result<(), AuctionError>)
    requires
        old(escrow).wf(),
        old(escrow).live,
        now >= old(escrow).clock,
        caller == old(escrow).auction.maker,
    ensures
        final(escrow).wf(),
        match r {
            Ok(()) => {
                &&& old(escrow).cancel_check(now) is None
                &&& old(escrow).cancel_step(*final(escrow), now)
            },
            Err(e) => {
                &&& old(escrow).cancel_check(now) == Some(e)
                &&& *final(escrow) == *old(escrow)
            },
        },
{
    let ghost pre = *escrow;
    let mut ctx = CancelAuction {
        maker: caller,
        auction: escrow.auction,
        vault_nft: escrow.vault_nft,
        vault_bid: escrow.vault_bid,
    };
    proof {
        // With no bids the leaderboard is zero, every record is zero, and the
        // bid vault is empty, so the host can close it.
        if ctx.check(now) is None {
            assert(!pre.auction.resolved);
            assert(forall|j: int| 0 <= j < pre.bids@.len() ==> pre.bids@[j].amount == 0);
            lemma_owed_all_zero(pre.bids@, pre.excluded());
        }
    }
    match ctx.cancel(now) {
        Ok(()) => {
            escrow.vault_nft = ctx.vault_nft;
            // Both vaults and the auction record close; their rent returns to
            // the maker.
            escrow.live = false;
            escrow.clock = now;
            escrow.withdrawn_prize = Ghost(escrow.withdrawn_prize@ + 1);
            proof {
                assert(escrow.funds_ok());
                assert(escrow.clock_ok());
                assert(escrow.wf());
                assert(pre.cancel_step(*escrow, now));
            }
            Ok(())
        },
        Err(e) => Err(e),
    }
}

} // verus!
