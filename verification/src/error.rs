use vstd::prelude::*;

verus! {

/// Every way an auction operation can be rejected. Each error aborts the
/// whole invocation: the caller sees the error and no state has changed.
#[derive(Clone, Copy, Debug, PartialEq, Eq, Structural)]
pub enum AuctionError {
    /// Bid was called at or after the auction's `end_time`.
    AuctionEnded,
    /// Resolve, ClaimRefund or Cancel was called before `end_time`.
    AuctionNotEnded,
    /// Resolve was called on an auction that has already settled.
    AlreadyResolved,
    /// ClaimRefund was called by the current highest bidder.
    CannotRefundWinner,
    /// ClaimRefund was called twice for the same bid record.
    AlreadyRefunded,
    /// Cancel was called on an auction that received at least one bid.
    AuctionHasBids,
    /// A deposit would overflow a cumulative amount or a vault balance;
    /// the operation aborts rather than wrapping.
    Overflow,
}

} // verus!
