use vstd::prelude::*;

verus! {

/// Why a marketplace operation was refused. Every refusal leaves the records
/// it was given exactly as they were. The variants keep the order of the
/// program's error codes, which are numbered by position.
#[derive(Clone, Copy, Debug, PartialEq, Eq, Structural)]
pub enum MarketplaceError {
    InvalidFee,
    InvalidPrice,
    InvalidRoyalty,
    ListingNotActive,
    AuctionNotActive,
    AuctionEnded,
    AuctionNotEnded,
    BidTooLow,
    BidBelowStarting,
    InvalidReservePrice,
    InvalidDuration,
    InvalidMetadata,
    InvalidTokenStandard,
    CompressedNFTTransferFailed,
    /// An active listing already holds the item.
    AlreadyListed,
    /// The caller is not the seller of the record.
    NotSeller,
    /// The source holding is not exactly one unit of the item owned by the caller.
    InvalidItemHolding,
    /// The escrow no longer holds the item.
    EscrowReleased,
    /// A sum, product or difference left the range of its type.
    MathOverflow,
}

} // verus!
