use vstd::prelude::*;

use crate::error::AuctionError;
use crate::state::Auction;
use crate::state::Bids;

verus! {

/// The accounts Bid binds to: the signing bidder, the auction record, the
/// caller's bid record (created by the host on a first bid, starting from a
/// zero amount), and the shared bid vault that collects every deposit.
pub struct Bid {
    /// The signer placing the bid.
    pub bidder: u64,
    /// The auction record being bid on.
    pub auction: Auction,
    /// The caller's own bid record.
    pub bid_record: Bids,
    /// Bid vault balance.
    pub vault_bid: u64,
}

impl Bid {
    /// Why this call is rejected, if it is: bidding closes at `end_time`, and
    /// a deposit that would overflow the cumulative amount or the vault
    /// aborts instead of wrapping.
    pub open spec fn check(self, additional_amount: u64, now: i64) -> Option<AuctionError> {
        if now >= self.auction.end_time {
            Some(AuctionError::AuctionEnded)
        } else if self.bid_record.amount + additional_amount > u64::MAX {
            Some(AuctionError::Overflow)
        } else if self.vault_bid + additional_amount > u64::MAX {
            Some(AuctionError::Overflow)
        } else {
            None
        }
    }

    /// Tops up the caller's cumulative deposit, takes the lead when the new
    /// total strictly beats the leaderboard (a tie never dethrones the
    /// incumbent), and moves the deposit into the bid vault. Rejections leave
    /// every account exactly as it was.
    pub fn bid(&mut self, additional_amount: u64, now: i64) -> (r: Result<(), AuctionError>)
        requires
            old(self).bid_record.amount == 0 || old(self).bid_record.bidder == old(self).bidder,
        ensures
            match r {
                Ok(()) => {
                    &&& old(self).check(additional_amount, now) is None
                    &&& final(self).bid_record == (Bids {
                        bidder: old(self).bidder,
                        amount: (old(self).bid_record.amount + additional_amount) as u64,
                        refunded: if old(self).bid_record.amount == 0 {
                            false
                        } else {
                            old(self).bid_record.refunded
                        },
                    })
                    &&& final(self).auction == (if final(self).bid_record.amount > old(
                        self,
                    ).auction.highest_bid_amount {
                        Auction {
                            highest_bidder: old(self).bidder,
                            highest_bid_amount: final(self).bid_record.amount,
                            ..old(self).auction
                        }
                    } else {
                        old(self).auction
                    })
                    &&& final(self).vault_bid == old(self).vault_bid + additional_amount
                    &&& final(self).bidder == old(self).bidder
                },
                Err(e) => {
                    &&& old(self).check(additional_amount, now) == Some(e)
                    &&& *final(self) == *old(self)
                },
            },
    {
        // Enforce the time limit.
        if now >= self.auction.end_time {
            return Err(AuctionError::AuctionEnded);
        }
        // The whole invocation is atomic: check both additions up front so a
        // rejection leaves no partial state behind.
        if additional_amount > u64::MAX - self.bid_record.amount {
            return Err(AuctionError::Overflow);
        }
        if additional_amount > u64::MAX - self.vault_bid {
            return Err(AuctionError::Overflow);
        }

        // Initialize baseline data if this is a brand new record.
        if self.bid_record.amount == 0 {
            self.bid_record.bidder = self.bidder;
            self.bid_record.refunded = false;
        }

        // Update the caller's cumulative deposit.
        self.bid_record.amount = self.bid_record.amount + additional_amount;

        // Update the leaderboard if they are the new highest bidder.
        if self.bid_record.amount > self.auction.highest_bid_amount {
            self.auction.highest_bidder = self.bidder;
            self.auction.highest_bid_amount = self.bid_record.amount;
        }

        // Move the deposit from the bidder's holding account into the vault.
        self.vault_bid = self.vault_bid + additional_amount;

        Ok(())
    }
}

} // verus!
