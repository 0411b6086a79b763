use vstd::prelude::*;

verus! {

/// The null identity: the value of `highest_bidder` before any bid has been
/// placed. Identities and asset ids are plain numbers here; the host ledger
/// maps them to real account addresses.
pub const NO_BIDDER: u64 = 0;

/// One auction instance: created once by Make, mutated by Bid and Resolve,
/// destroyed by Cancel or by the terminal ClaimRefund.
#[derive(Clone, Copy, Debug, PartialEq, Eq, Structural)]
pub struct Auction {
    /// Disambiguator chosen by the maker; part of the auction's derived address.
    pub seed: u64,
    /// Creator and prize depositor; receives the winning funds, or the prize
    /// back on cancel.
    pub maker: u64,
    /// The unique asset being auctioned.
    pub nft_mint: u64,
    /// The fungible asset accepted as bids.
    pub bid_mint: u64,
    /// Bidding closes at this instant: a bid at `end_time` is already too late.
    pub end_time: i64,
    /// True once settlement has executed; guards against double settlement.
    pub resolved: bool,
    /// Current leader; `NO_BIDDER` if nobody has bid yet.
    pub highest_bidder: u64,
    /// Current leading cumulative amount; 0 if nobody has bid yet.
    pub highest_bid_amount: u64,
}

/// One bidder's standing in one auction: tracks the cumulative deposit across
/// all of that bidder's Bid calls, and whether it has been paid back.
#[derive(Clone, Copy, Debug, PartialEq, Eq, Structural)]
pub struct Bids {
    /// Owner of this record; never changes after creation.
    pub bidder: u64,
    /// Cumulative amount deposited by this bidder.
    pub amount: u64,
    /// True once this bidder has reclaimed a losing deposit.
    pub refunded: bool,
}

} // verus!
