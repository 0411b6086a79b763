use vstd::prelude::*;

use crate::state::Auction;
use crate::state::NO_BIDDER;

verus! {

/// The accounts Make binds to: the maker's identities and balances, the fresh
/// auction record, and the two newly allocated custodial vaults. The host
/// allocates the accounts and authorizes the prize transfer; the record
/// initialization and the decision of what moves where live here.
pub struct MakeAuction {
    /// Creator and prize depositor.
    pub maker: u64,
    /// The unique asset being auctioned.
    pub nft_mint: u64,
    /// The fungible asset accepted as bids.
    pub bid_mint: u64,
    /// The auction record under construction.
    pub auction: Auction,
    /// Prize vault balance; freshly allocated, so 0 before the deposit.
    pub vault_nft: u64,
    /// Bid vault balance; stays 0 until the first bid arrives.
    pub vault_bid: u64,
}

impl MakeAuction {
    /// Writes the auction record: configuration as given, no bids yet,
    /// not resolved.
    pub fn init_auction(&mut self, seed: u64, end_time: i64)
        ensures
            final(self).auction == (Auction {
                seed,
                maker: old(self).maker,
                nft_mint: old(self).nft_mint,
                bid_mint: old(self).bid_mint,
                end_time,
                resolved: false,
                highest_bidder: NO_BIDDER,
                highest_bid_amount: 0,
            }),
            final(self).maker == old(self).maker,
            final(self).nft_mint == old(self).nft_mint,
            final(self).bid_mint == old(self).bid_mint,
            final(self).vault_nft == old(self).vault_nft,
            final(self).vault_bid == old(self).vault_bid,
    {
        self.auction = Auction {
            seed,
            maker: self.maker,
            nft_mint: self.nft_mint,
            bid_mint: self.bid_mint,
            end_time,
            resolved: false,
            highest_bidder: NO_BIDDER,
            highest_bid_amount: 0,
        };
    }

    /// Moves the prize from the maker's holding account into the prize vault.
    pub fn deposit_prize(&mut self, deposit_amount: u64)
        requires
            old(self).vault_nft + deposit_amount <= u64::MAX,
        ensures
            final(self).vault_nft == old(self).vault_nft + deposit_amount,
            final(self).auction == old(self).auction,
            final(self).maker == old(self).maker,
            final(self).nft_mint == old(self).nft_mint,
            final(self).bid_mint == old(self).bid_mint,
            final(self).vault_bid == old(self).vault_bid,
    {
        self.vault_nft = self.vault_nft + deposit_amount;
    }
}

} // verus!
