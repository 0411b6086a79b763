use vstd::prelude::*;

use crate::error::AuctionError;
use crate::state::Auction;
use crate::state::Bids;

verus! {

/// The accounts Resolve binds to. Resolve is a crank: any party may call it
/// once the deadline has passed. The host checks that `winner_bid_record`
/// really is the record derived for `auction.highest_bidder`; binding it at
/// all presupposes a winner was established, so a no-bid auction can only
/// terminate through Cancel.
pub struct ResolveAuction {
    /// The auction record.
    pub auction: Auction,
    /// The winner's bid record; closed by the host after settlement, with its
    /// rent going back to the winner.
    pub winner_bid_record: Bids,
    /// Prize vault balance.
    pub vault_nft: u64,
    /// Bid vault balance.
    pub vault_bid: u64,
}

impl ResolveAuction {
    /// Why this call is rejected, if it is: settlement opens at the deadline
    /// and runs exactly once.
    pub open spec fn check(self, now: i64) -> Option<AuctionError> {
        if now < self.auction.end_time {
            Some(AuctionError::AuctionNotEnded)
        } else if self.auction.resolved {
            Some(AuctionError::AlreadyResolved)
        } else {
            None
        }
    }

    /// Settles the auction: marks it resolved first (so nothing can re-enter
    /// the payout path), then sends the prize unit to the winner and the
    /// winning amount to the maker. Rejections leave every account exactly as
    /// it was.
    pub fn resolve(&mut self, now: i64) -> (r: Result<(), AuctionError>)
        requires
            old(self).winner_bid_record.bidder == old(self).auction.highest_bidder,
            old(self).check(now) is None ==> old(self).vault_nft >= 1,
            old(self).check(now) is None ==> old(self).vault_bid >= old(
                self,
            ).auction.highest_bid_amount,
        ensures
            match r {
                Ok(()) => {
                    &&& old(self).check(now) is None
                    &&& final(self).auction == (Auction { resolved: true, ..old(self).auction })
                    &&& final(self).vault_nft == old(self).vault_nft - 1
                    &&& final(self).vault_bid == old(self).vault_bid - old(
                        self,
                    ).auction.highest_bid_amount
                    &&& final(self).winner_bid_record == old(self).winner_bid_record
                },
                Err(e) => {
                    &&& old(self).check(now) == Some(e)
                    &&& *final(self) == *old(self)
                },
            },
    {
        // The auction must actually be over.
        if now < self.auction.end_time {
            return Err(AuctionError::AuctionNotEnded);
        }
        // Settle exactly once.
        if self.auction.resolved {
            return Err(AuctionError::AlreadyResolved);
        }

        // Flip the guard before anything moves.
        self.auction.resolved = true;

        // The prize unit goes from the prize vault to the winner; the empty
        // prize vault then closes, its rent going back to the maker.
        self.vault_nft = self.vault_nft - 1;

        // The winning amount goes from the bid vault to the maker.
        self.vault_bid = self.vault_bid - self.auction.highest_bid_amount;

        Ok(())
    }
}

} // verus!
