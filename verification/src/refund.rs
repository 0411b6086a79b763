use vstd::prelude::*;

use crate::error::AuctionError;
use crate::state::Auction;
use crate::state::Bids;

verus! {

/// The accounts ClaimRefund binds to: the losing bidder (the host checks the
/// record really belongs to the signer), the maker (who receives the rent of
/// anything closed at the end), the auction record, the caller's bid record
/// and the bid vault.
pub struct ClaimRefund {
    /// The signer reclaiming their deposit.
    pub bidder: u64,
    /// Receives the vault and record rent once the auction drains.
    pub maker: u64,
    /// The auction record.
    pub auction: Auction,
    /// The caller's own bid record.
    pub bid_record: Bids,
    /// Bid vault balance.
    pub vault_bid: u64,
}

impl ClaimRefund {
    /// Why this call is rejected, if it is: refunds open at the deadline, the
    /// current highest bidder's deposit is locked for settlement, and a
    /// record pays out at most once.
    pub open spec fn check(self, now: i64) -> Option<AuctionError> {
        if now < self.auction.end_time {
            Some(AuctionError::AuctionNotEnded)
        } else if self.bid_record.bidder == self.auction.highest_bidder {
            Some(AuctionError::CannotRefundWinner)
        } else if self.bid_record.refunded {
            Some(AuctionError::AlreadyRefunded)
        } else {
            None
        }
    }

    /// Pays the caller's whole cumulative deposit back out of the bid vault
    /// and marks the record refunded. Rejections leave every account exactly
    /// as it was.
    pub fn refund_loser(&mut self, now: i64) -> (r: Result<(), AuctionError>)
        requires
            old(self).check(now) is None ==> old(self).vault_bid >= old(self).bid_record.amount,
        ensures
            match r {
                Ok(()) => {
                    &&& old(self).check(now) is None
                    &&& final(self).bid_record == (Bids { refunded: true, ..old(self).bid_record })
                    &&& final(self).vault_bid == old(self).vault_bid - old(self).bid_record.amount
                    &&& final(self).auction == old(self).auction
                    &&& final(self).bidder == old(self).bidder
                    &&& final(self).maker == old(self).maker
                },
                Err(e) => {
                    &&& old(self).check(now) == Some(e)
                    &&& *final(self) == *old(self)
                },
            },
    {
        // Refunds only open once the auction is over.
        if now < self.auction.end_time {
            return Err(AuctionError::AuctionNotEnded);
        }
        // The winner's locked deposit pays the maker at settlement; it can
        // never leave through this path.
        if self.bid_record.bidder == self.auction.highest_bidder {
            return Err(AuctionError::CannotRefundWinner);
        }
        // Each losing deposit pays out exactly once.
        if self.bid_record.refunded {
            return Err(AuctionError::AlreadyRefunded);
        }

        // Move the losing amount from the vault back to the bidder.
        self.vault_bid = self.vault_bid - self.bid_record.amount;
        self.bid_record.refunded = true;

        Ok(())
    }
}

} // verus!
