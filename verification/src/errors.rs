//! The error taxonomy of the settlement core.

use vstd::prelude::*;

verus! {

/// Why an operation was rejected.  Every rejection is atomic: the operation
/// mutates nothing when it returns an error.
#[derive(Clone, Copy, Debug, PartialEq, Eq, Structural)]
pub enum ErrorCode {
    /// A basis-point parameter exceeds 10,000.
    InvalidBps,
    /// A time window is empty or an end time is not in the future.
    InvalidTimes,
    /// A capacity parameter is zero, or a bounded store is full.
    InvalidCapacity,
    /// A price is zero, missing, or does not match the slot's price.
    InvalidPrice,
    /// An auction slot is missing its start or end timestamp.
    MissingAuctionWindow,
    /// The slot's mode does not admit this operation.
    WrongMode,
    /// The slot's state does not admit this operation.
    InvalidState,
    /// A time-gated operation was called before its deadline.
    TooEarly,
    /// A time-gated operation was called after its deadline.
    TooLate,
    /// The escrow has no recorded buyer.
    NotReserved,
    /// The caller is not the recorded buyer.
    UnauthorizedBuyer,
    /// The caller holds none of the identities the operation admits.
    Unauthorized,
    /// The refund queue is empty or the escrow holds nothing to refund.
    NothingToRefund,
    /// The escrow balance does not match what settlement expects.
    InvalidEscrowBalance,
    /// The slot is frozen by a dispute.
    Frozen,
    /// A bid is below the minimum acceptable amount.
    BidTooLow,
    /// Reserved for a stricter auction-end policy that would refuse to end
    /// an auction while outbid refunds are still queued; no operation of
    /// this revision raises it.
    RefundsPending,
    /// An auction ended without any bid.
    NoBids,
    /// Checked arithmetic could not represent a result.
    Overflow,
    /// The bidder already holds a commitment for this slot.
    AlreadyCommitted,
    /// The bidder holds no commitment for this slot.
    NotCommitted,
    /// The commitment was already revealed.
    AlreadyRevealed,
    /// The revealed bid does not match the commitment.
    RevealMismatch,
    /// Every unit of the slot's capacity is sold.
    CapacityExhausted,
    /// Auction modes only support a capacity of one.
    MultiCapacityUnsupported,
    /// A payment amount is zero.
    InvalidAmount,
}

} // verus!
