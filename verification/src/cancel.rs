use vstd::prelude::*;

use crate::error::AuctionError;
use crate::state::Auction;

verus! {

/// The accounts Cancel binds to: only the maker may sign (the host checks
/// `maker` against the auction record), and both vaults close once the prize
/// has gone back. Cancel exists because a no-bid auction has no winner, so
/// Resolve could never free its prize.
pub struct CancelAuction {
    /// The signer; must be the auction's maker.
    pub maker: u64,
    /// The auction record.
    pub auction: Auction,
    /// Prize vault balance.
    pub vault_nft: u64,
    /// Bid vault balance; empty whenever Cancel is allowed.
    pub vault_bid: u64,
}

impl CancelAuction {
    /// Why this call is rejected, if it is: only after the deadline, and only
    /// when nobody ever bid — with bids, settlement must go through Resolve
    /// and ClaimRefund instead.
    pub open spec fn check(self, now: i64) -> Option<AuctionError> {
        if now < self.auction.end_time {
            Some(AuctionError::AuctionNotEnded)
        } else if self.auction.highest_bid_amount > 0 {
            Some(AuctionError::AuctionHasBids)
        } else {
            None
        }
    }

    /// Returns the prize unit to the maker and closes both vaults; the host
    /// can only close an empty vault, which the no-bids guard guarantees.
    /// Rejections leave every account exactly as it was.
    pub fn cancel(&mut self, now: i64) -> (r: Result<(), AuctionError>)
        requires
            old(self).maker == old(self).auction.maker,
            old(self).check(now) is None ==> old(self).vault_nft >= 1,
            old(self).check(now) is None ==> old(self).vault_bid == 0,
        ensures
            match r {
                Ok(()) => {
                    &&& old(self).check(now) is None
                    &&& final(self).vault_nft == old(self).vault_nft - 1
                    &&& final(self).vault_bid == 0
                    &&& final(self).auction == old(self).auction
                    &&& final(self).maker == old(self).maker
                },
                Err(e) => {
                    &&& old(self).check(now) == Some(e)
                    &&& *final(self) == *old(self)
                },
            },
    {
        // Cancellation only opens once the auction period is over.
        if now < self.auction.end_time {
            return Err(AuctionError::AuctionNotEnded);
        }
        // With any bid on the books, the resolve-and-refund flow owns the
        // funds; Cancel and that flow are mutually exclusive.
        if self.auction.highest_bid_amount > 0 {
            return Err(AuctionError::AuctionHasBids);
        }

        // Send the prize back to the maker; both vaults then close, their
        // rent going back to the maker.
        self.vault_nft = self.vault_nft - 1;

        Ok(())
    }
}

} // verus!
