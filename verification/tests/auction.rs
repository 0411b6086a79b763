use capstone::bid;
use capstone::cancel_auction;
use capstone::claim_refund;
use capstone::error::AuctionError;
use capstone::make_auction;
use capstone::resolve_auction;
use capstone::state::NO_BIDDER;

const MAKER: u64 = 10;
const NFT: u64 = 77;
const USD: u64 = 88;
const X: u64 = 2;
const Y: u64 = 3;

#[test]
fn make_starts_with_prize_and_no_bids() {
    let e = make_auction(7, MAKER, NFT, USD, 100, 1);
    assert_eq!(e.vault_nft, 1);
    assert_eq!(e.vault_bid, 0);
    assert_eq!(e.auction.seed, 7);
    assert_eq!(e.auction.maker, MAKER);
    assert_eq!(e.auction.nft_mint, NFT);
    assert_eq!(e.auction.bid_mint, USD);
    assert_eq!(e.auction.end_time, 100);
    assert!(!e.auction.resolved);
    assert_eq!(e.auction.highest_bidder, NO_BIDDER);
    assert_eq!(e.auction.highest_bid_amount, 0);
    assert_eq!(e.bids.len(), 0);
    assert!(e.live);
}

// Maker deposits the prize with end_time 100; X bids 50, then Y bids 70;
// after the deadline Resolve pays Y the prize and the maker 70; X reclaims 50
// and the drained auction is destroyed.
#[test]
fn scenario_full_auction_with_two_bidders() {
    let mut e = make_auction(7, MAKER, NFT, USD, 100, 1);
    assert_eq!(bid(&mut e, X, 50, 10), Ok(()));
    assert_eq!(e.auction.highest_bidder, X);
    assert_eq!(e.auction.highest_bid_amount, 50);
    assert_eq!(bid(&mut e, Y, 70, 20), Ok(()));
    assert_eq!(e.auction.highest_bidder, Y);
    assert_eq!(e.auction.highest_bid_amount, 70);
    assert_eq!(e.vault_bid, 120);

    assert_eq!(resolve_auction(&mut e, 150), Ok(()));
    assert!(e.auction.resolved);
    // Prize to the winner, winning amount to the maker.
    assert_eq!(e.vault_nft, 0);
    assert_eq!(e.vault_bid, 50);
    assert!(e.live);

    assert_eq!(claim_refund(&mut e, X, 160), Ok(()));
    assert_eq!(e.vault_bid, 0);
    // The terminal refund destroys the auction record.
    assert!(!e.live);
}

// Nobody bids before the deadline: Cancel returns the prize to the maker and
// closes everything.
#[test]
fn scenario_cancel_when_no_bids() {
    let mut e = make_auction(1, MAKER, NFT, USD, 100, 1);
    assert_eq!(cancel_auction(&mut e, MAKER, 120), Ok(()));
    assert_eq!(e.vault_nft, 0);
    assert_eq!(e.vault_bid, 0);
    assert!(!e.live);
}

// X bids 50 before the deadline: Cancel afterwards is rejected.
#[test]
fn scenario_cancel_rejected_once_bid() {
    let mut e = make_auction(1, MAKER, NFT, USD, 100, 1);
    assert_eq!(bid(&mut e, X, 50, 10), Ok(()));
    assert_eq!(cancel_auction(&mut e, MAKER, 150), Err(AuctionError::AuctionHasBids));
    // The rejection left everything untouched.
    assert!(e.live);
    assert_eq!(e.vault_nft, 1);
    assert_eq!(e.vault_bid, 50);
}

// A bidder tops up: 10 then 15 more accumulate to 25.
#[test]
fn scenario_topping_up_accumulates() {
    let mut e = make_auction(1, MAKER, NFT, USD, 100, 1);
    assert_eq!(bid(&mut e, X, 10, 5), Ok(()));
    assert_eq!(bid(&mut e, X, 15, 6), Ok(()));
    assert_eq!(e.bids.len(), 1);
    assert_eq!(e.bids[0].bidder, X);
    assert_eq!(e.bids[0].amount, 25);
    assert_eq!(e.auction.highest_bid_amount, 25);
    assert_eq!(e.vault_bid, 25);
}

#[test]
fn bid_rejected_at_and_after_deadline() {
    let mut e = make_auction(1, MAKER, NFT, USD, 100, 1);
    assert_eq!(bid(&mut e, X, 50, 100), Err(AuctionError::AuctionEnded));
    assert_eq!(bid(&mut e, X, 50, 170), Err(AuctionError::AuctionEnded));
    assert_eq!(e.vault_bid, 0);
    assert_eq!(e.bids.len(), 0);
}

#[test]
fn resolve_rejected_before_deadline() {
    let mut e = make_auction(1, MAKER, NFT, USD, 100, 1);
    assert_eq!(bid(&mut e, X, 50, 10), Ok(()));
    assert_eq!(resolve_auction(&mut e, 99), Err(AuctionError::AuctionNotEnded));
    assert!(!e.auction.resolved);
    assert_eq!(e.vault_bid, 50);
}

#[test]
fn refund_and_cancel_rejected_before_deadline() {
    let mut e = make_auction(1, MAKER, NFT, USD, 100, 1);
    assert_eq!(bid(&mut e, X, 50, 10), Ok(()));
    assert_eq!(bid(&mut e, Y, 70, 20), Ok(()));
    assert_eq!(claim_refund(&mut e, X, 99), Err(AuctionError::AuctionNotEnded));
    assert_eq!(cancel_auction(&mut e, MAKER, 99), Err(AuctionError::AuctionNotEnded));
    assert_eq!(e.vault_bid, 120);
}

// Resolving twice fails the second time and moves no funds again.
#[test]
fn resolve_twice_rejected_without_moving_funds() {
    let mut e = make_auction(1, MAKER, NFT, USD, 100, 1);
    assert_eq!(bid(&mut e, X, 50, 10), Ok(()));
    assert_eq!(resolve_auction(&mut e, 150), Ok(()));
    let vault_nft_after = e.vault_nft;
    let vault_bid_after = e.vault_bid;
    assert_eq!(resolve_auction(&mut e, 160), Err(AuctionError::AlreadyResolved));
    assert_eq!(e.vault_nft, vault_nft_after);
    assert_eq!(e.vault_bid, vault_bid_after);
}

// The highest bidder's deposit is locked for settlement: refunds never reach it.
#[test]
fn winner_cannot_claim_refund() {
    let mut e = make_auction(1, MAKER, NFT, USD, 100, 1);
    assert_eq!(bid(&mut e, X, 50, 10), Ok(()));
    assert_eq!(bid(&mut e, Y, 70, 20), Ok(()));
    assert_eq!(claim_refund(&mut e, Y, 150), Err(AuctionError::CannotRefundWinner));
    assert_eq!(e.vault_bid, 120);
    // Still locked after settlement.
    assert_eq!(resolve_auction(&mut e, 150), Ok(()));
    assert_eq!(claim_refund(&mut e, Y, 160), Err(AuctionError::CannotRefundWinner));
    assert_eq!(e.vault_bid, 50);
}

#[test]
fn refund_twice_rejected() {
    let mut e = make_auction(1, MAKER, NFT, USD, 100, 1);
    assert_eq!(bid(&mut e, X, 50, 10), Ok(()));
    assert_eq!(bid(&mut e, Y, 70, 20), Ok(()));
    assert_eq!(resolve_auction(&mut e, 150), Ok(()));
    assert_eq!(claim_refund(&mut e, X, 160), Ok(()));
    assert_eq!(claim_refund(&mut e, X, 170), Err(AuctionError::AlreadyRefunded));
    assert_eq!(e.vault_bid, 0);
}

// A deposit that would overflow the cumulative amount aborts instead of
// wrapping.
#[test]
fn bid_overflow_rejected() {
    let mut e = make_auction(1, MAKER, NFT, USD, 100, 1);
    assert_eq!(bid(&mut e, X, u64::MAX, 10), Ok(()));
    assert_eq!(bid(&mut e, X, 1, 11), Err(AuctionError::Overflow));
    assert_eq!(e.bids[0].amount, u64::MAX);
    // The vault, shared by everyone, is also overflow-checked.
    assert_eq!(bid(&mut e, Y, 1, 12), Err(AuctionError::Overflow));
    assert_eq!(e.vault_bid, u64::MAX);
}

// A tie does not dethrone the incumbent: the first bidder to reach the
// amount keeps the lead.
#[test]
fn tie_keeps_first_achiever() {
    let mut e = make_auction(1, MAKER, NFT, USD, 100, 1);
    assert_eq!(bid(&mut e, X, 50, 10), Ok(()));
    assert_eq!(bid(&mut e, Y, 50, 20), Ok(()));
    assert_eq!(e.auction.highest_bidder, X);
    assert_eq!(e.auction.highest_bid_amount, 50);
    // One more unit takes the lead.
    assert_eq!(bid(&mut e, Y, 1, 30), Ok(()));
    assert_eq!(e.auction.highest_bidder, Y);
    assert_eq!(e.auction.highest_bid_amount, 51);
}

// Before resolution the bid vault holds exactly the sum of every bidder's
// cumulative amount.
#[test]
fn vault_equals_sum_of_amounts() {
    let mut e = make_auction(1, MAKER, NFT, USD, 100, 1);
    assert_eq!(bid(&mut e, X, 50, 10), Ok(()));
    assert_eq!(bid(&mut e, Y, 70, 20), Ok(()));
    assert_eq!(bid(&mut e, X, 30, 30), Ok(()));
    let sum: u64 = e.bids.iter().map(|b| b.amount).sum();
    assert_eq!(sum, 150);
    assert_eq!(e.vault_bid, sum);
}

// The leaderboard always equals the maximum over all records' amounts.
#[test]
fn leaderboard_tracks_the_maximum() {
    let mut e = make_auction(1, MAKER, NFT, USD, 100, 1);
    assert_eq!(bid(&mut e, X, 60, 10), Ok(()));
    assert_eq!(bid(&mut e, Y, 40, 20), Ok(()));
    let max = e.bids.iter().map(|b| b.amount).max().unwrap();
    assert_eq!(e.auction.highest_bid_amount, max);
    assert_eq!(e.auction.highest_bidder, X);
    assert_eq!(bid(&mut e, Y, 40, 30), Ok(()));
    let max = e.bids.iter().map(|b| b.amount).max().unwrap();
    assert_eq!(e.auction.highest_bid_amount, max);
    assert_eq!(e.auction.highest_bidder, Y);
}

// Everything paid out over a whole auction never exceeds what was paid in.
#[test]
fn outflow_never_exceeds_inflow() {
    let mut e = make_auction(1, MAKER, NFT, USD, 100, 1);
    let inflow_bid: u64 = 50 + 70 + 30;
    assert_eq!(bid(&mut e, X, 50, 10), Ok(()));
    assert_eq!(bid(&mut e, Y, 70, 20), Ok(()));
    assert_eq!(bid(&mut e, X, 30, 30), Ok(()));

    // X's cumulative 80 beats Y's 70, so X wins and Y is refunded.
    assert_eq!(resolve_auction(&mut e, 150), Ok(()));
    let maker_payout = inflow_bid - e.vault_bid; // winning amount left the vault
    let prize_payout = 1 - e.vault_nft; // prize unit left the vault
    assert_eq!(claim_refund(&mut e, Y, 160), Ok(()));
    let refunds = inflow_bid - maker_payout - e.vault_bid;

    assert_eq!(maker_payout, 80);
    assert_eq!(prize_payout, 1);
    assert_eq!(refunds, 70);
    assert!(maker_payout + refunds <= inflow_bid);
    assert!(prize_payout <= 1);
    // And nothing was left behind: custody drained exactly.
    assert_eq!(e.vault_bid, 0);
    assert_eq!(e.vault_nft, 0);
}

// A bid of zero creates a record but never takes the lead.
#[test]
fn zero_bid_creates_record_without_leading() {
    let mut e = make_auction(1, MAKER, NFT, USD, 100, 1);
    assert_eq!(bid(&mut e, X, 0, 10), Ok(()));
    assert_eq!(e.bids.len(), 1);
    assert_eq!(e.bids[0].amount, 0);
    assert_eq!(e.auction.highest_bidder, NO_BIDDER);
    assert_eq!(e.auction.highest_bid_amount, 0);
    // Still cancellable: a zero bid is not a bid on the leaderboard.
    assert_eq!(cancel_auction(&mut e, MAKER, 150), Ok(()));
}

// Refunds open at the deadline, independent of settlement: a loser can pull
// their deposit out before anyone cranks Resolve, and the later settlement
// still pays the maker the full winning amount.
#[test]
fn loser_can_refund_before_resolve() {
    let mut e = make_auction(1, MAKER, NFT, USD, 100, 1);
    assert_eq!(bid(&mut e, X, 50, 10), Ok(()));
    assert_eq!(bid(&mut e, Y, 70, 20), Ok(()));
    assert_eq!(claim_refund(&mut e, X, 120), Ok(()));
    assert_eq!(e.vault_bid, 70);
    assert!(e.live);
    assert_eq!(resolve_auction(&mut e, 130), Ok(()));
    assert_eq!(e.vault_bid, 0);
    assert_eq!(e.vault_nft, 0);
}
