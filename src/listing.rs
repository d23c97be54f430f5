use vstd::prelude::*;
use crate::address::Address;
use crate::effects::{debited, ItemTransfer, Party, Payment, TransferVariant};
use crate::error::MarketplaceError;
use crate::escrow::{holding_ok, Escrow, ItemAccount};
use crate::fees::{split_error, split_of, split_price, MAX_ROYALTY_BPS};
use crate::registry::Marketplace;

verus! {

/// A fixed-price offer of one item, whose unit sits in the listing's escrow
/// while the listing is active.
#[derive(Clone, Copy, Debug, PartialEq, Eq, Structural)]
pub struct Listing {
    pub seller: Address,
    pub nft_mint: Address,
    pub price: u64,
    pub royalty_percentage: u16,
    pub royalty_recipient: Address,
    pub is_active: bool,
    pub listed_at: i64,
    pub bump: u8,
    pub escrow: Escrow,
}

/// A completed sale: the three payments out of the buyer's balance and the
/// release of the item to the buyer.
#[derive(Debug)]
pub struct Sale {
    pub payments: Vec<Payment>,
    pub item: ItemTransfer,
}

impl Listing {
    pub open spec fn wf(self) -> bool {
        &&& self.price > 0
        &&& self.royalty_percentage <= MAX_ROYALTY_BPS
        &&& self.escrow.item == self.nft_mint
        &&& self.escrow.held == self.is_active
    }

    /// The listing in its terminal state.
    pub open spec fn closed(self) -> Listing {
        Listing { is_active: false, escrow: self.escrow.emptied(), ..self }
    }
}

/// The error, if any, with which `list_nft` refuses its arguments.
pub open spec fn list_error(
    existing: Option<Listing>,
    seller: Address,
    nft_mint: Address,
    source: ItemAccount,
    price: u64,
    royalty_percentage: u16,
) -> Option<MarketplaceError> {
    if price == 0 {
        Some(MarketplaceError::InvalidPrice)
    } else if royalty_percentage > MAX_ROYALTY_BPS {
        Some(MarketplaceError::InvalidRoyalty)
    } else if existing is Some && existing->Some_0.is_active {
        Some(MarketplaceError::AlreadyListed)
    } else if !holding_ok(nft_mint, seller, source) {
        Some(MarketplaceError::InvalidItemHolding)
    } else {
        None
    }
}

/// Lists the item for sale at `price`, taking its unit into escrow.
/// `existing` is what the item's listing record holds now: an active listing
/// there refuses the new one. The seller receives the royalties.
pub fn list_nft(
    existing: &Option<Listing>,
    seller: Address,
    nft_mint: Address,
    source: &ItemAccount,
    price: u64,
    royalty_percentage: u16,
    now: i64,
    bump: u8,
) -> (r: Result<(Listing, ItemTransfer), MarketplaceError>)
    ensures
        match r {
            Ok((l, t)) => {
                &&& list_error(*existing, seller, nft_mint, *source, price, royalty_percentage) is None
                &&& l == (Listing {
                    seller,
                    nft_mint,
                    price,
                    royalty_percentage,
                    royalty_recipient: seller,
                    is_active: true,
                    listed_at: now,
                    bump,
                    escrow: Escrow { item: nft_mint, held: true },
                })
                &&& l.wf()
                &&& t == (ItemTransfer {
                    item: nft_mint,
                    from: Party::Account(seller),
                    to: Party::Escrow,
                    variant: TransferVariant::Standard,
                })
            },
            Err(e) => list_error(*existing, seller, nft_mint, *source, price, royalty_percentage)
                == Some(e),
        },
{
    if price == 0 {
        return Err(MarketplaceError::InvalidPrice);
    }
    if royalty_percentage > MAX_ROYALTY_BPS {
        return Err(MarketplaceError::InvalidRoyalty);
    }
    if let Some(l) = existing {
        if l.is_active {
            return Err(MarketplaceError::AlreadyListed);
        }
    }
    let (escrow, transfer) = Escrow::open(nft_mint, seller, source)?;
    let listing = Listing {
        seller,
        nft_mint,
        price,
        royalty_percentage,
        royalty_recipient: seller,
        is_active: true,
        listed_at: now,
        bump,
        escrow,
    };
    Ok((listing, transfer))
}

/// The error, if any, with which `buy_nft` refuses a purchase.
pub open spec fn buy_error(l: Listing, m: Marketplace, metadata_verified: bool) -> Option<
    MarketplaceError,
> {
    if !l.is_active {
        Some(MarketplaceError::ListingNotActive)
    } else if split_error(l.price as int, m.fee_basis_points as int, l.royalty_percentage as int) is Some {
        split_error(l.price as int, m.fee_basis_points as int, l.royalty_percentage as int)
    } else if !metadata_verified {
        Some(MarketplaceError::InvalidMetadata)
    } else if !l.escrow.held {
        Some(MarketplaceError::EscrowReleased)
    } else if !m.can_record(l.price as int) {
        Some(MarketplaceError::MathOverflow)
    } else {
        None
    }
}

/// The payments of a purchase: the fee to the treasury, the royalty to its
/// recipient and the rest to the seller, all from the buyer.
pub open spec fn sale_payments(l: Listing, m: Marketplace, buyer: Address) -> Seq<Payment> {
    let (fee, royalty, rest) = split_of(
        l.price as int,
        m.fee_basis_points as int,
        l.royalty_percentage as int,
    );
    seq![
        Payment { from: Party::Account(buyer), to: Party::Account(m.treasury), amount: fee as u64 },
        Payment {
            from: Party::Account(buyer),
            to: Party::Account(l.royalty_recipient),
            amount: royalty as u64,
        },
        Payment { from: Party::Account(buyer), to: Party::Account(l.seller), amount: rest as u64 },
    ]
}

/// Buys the listed item at its price. `metadata_verified` is the verdict of
/// the metadata-standard check on the item; `variant` picks the registry that
/// carries the item to the buyer. On success the listing is closed for good
/// and the marketplace counts one more sale; on failure nothing changes.
pub fn buy_nft(
    listing: &mut Listing,
    marketplace: &mut Marketplace,
    buyer: Address,
    metadata_verified: bool,
    variant: TransferVariant,
) -> (r: Result<Sale, MarketplaceError>)
    ensures
        match r {
            Ok(sale) => {
                &&& buy_error(*old(listing), *old(marketplace), metadata_verified) is None
                &&& *final(listing) == old(listing).closed()
                &&& *final(marketplace) == old(marketplace).with_sale(old(listing).price as int)
                &&& sale.payments@ == sale_payments(*old(listing), *old(marketplace), buyer)
                &&& debited(sale.payments@, Party::Account(buyer)) == old(listing).price
                &&& sale.item == (ItemTransfer {
                    item: old(listing).escrow.item,
                    from: Party::Escrow,
                    to: Party::Account(buyer),
                    variant,
                })
            },
            Err(e) => {
                &&& buy_error(*old(listing), *old(marketplace), metadata_verified) == Some(e)
                &&& *final(listing) == *old(listing)
                &&& *final(marketplace) == *old(marketplace)
            },
        },
{
    if !listing.is_active {
        return Err(MarketplaceError::ListingNotActive);
    }
    let price = listing.price;
    let split = split_price(price, marketplace.fee_basis_points, listing.royalty_percentage)?;
    if !metadata_verified {
        return Err(MarketplaceError::InvalidMetadata);
    }
    if !listing.escrow.held {
        return Err(MarketplaceError::EscrowReleased);
    }
    if !marketplace.can_record_sale(price) {
        return Err(MarketplaceError::MathOverflow);
    }
    let item = listing.escrow.release(buyer, variant)?;
    listing.is_active = false;
    marketplace.record_sale(price);
    let from = Party::Account(buyer);
    let mut payments: Vec<Payment> = Vec::new();
    payments.push(Payment { from, to: Party::Account(marketplace.treasury), amount: split.fee });
    payments.push(
        Payment { from, to: Party::Account(listing.royalty_recipient), amount: split.royalty },
    );
    payments.push(Payment { from, to: Party::Account(listing.seller), amount: split.seller_amount });
    proof {
        let ps = payments@;
        assert(ps.drop_last().drop_last().drop_last() =~= Seq::<Payment>::empty());
        reveal_with_fuel(debited, 4);
        assert(debited(ps, from) == split.fee + split.royalty + split.seller_amount);
        assert(ps =~= sale_payments(*old(listing), *old(marketplace), buyer));
    }
    Ok(Sale { payments, item })
}

/// The error, if any, with which `cancel_listing` refuses `caller`.
pub open spec fn cancel_error(l: Listing, caller: Address) -> Option<MarketplaceError> {
    if l.seller != caller {
        Some(MarketplaceError::NotSeller)
    } else if !l.is_active {
        Some(MarketplaceError::ListingNotActive)
    } else if !l.escrow.held {
        Some(MarketplaceError::EscrowReleased)
    } else {
        None
    }
}

/// Withdraws an active listing: the item goes back to the seller, who alone
/// may cancel, and the listing is closed for good.
pub fn cancel_listing(listing: &mut Listing, caller: Address) -> (r: Result<
    ItemTransfer,
    MarketplaceError,
>)
    ensures
        match r {
            Ok(t) => {
                &&& cancel_error(*old(listing), caller) is None
                &&& *final(listing) == old(listing).closed()
                &&& t == (ItemTransfer {
                    item: old(listing).escrow.item,
                    from: Party::Escrow,
                    to: Party::Account(old(listing).seller),
                    variant: TransferVariant::Standard,
                })
            },
            Err(e) => cancel_error(*old(listing), caller) == Some(e) && *final(listing) == *old(
                listing,
            ),
        },
{
    if listing.seller != caller {
        return Err(MarketplaceError::NotSeller);
    }
    if !listing.is_active {
        return Err(MarketplaceError::ListingNotActive);
    }
    let seller = listing.seller;
    let item = listing.escrow.release(seller, TransferVariant::Standard)?;
    listing.is_active = false;
    Ok(item)
}

/// A listing leaves the active state at most once: after a purchase or a
/// cancellation, another purchase fails with `ListingNotActive`, and so does
/// another cancellation by the seller (anyone else gets `NotSeller`). A
/// refused call changes no record and moves nothing.
pub proof fn lemma_listing_closes_once(
    l: Listing,
    m: Marketplace,
    metadata_verified: bool,
    caller: Address,
)
    ensures
        buy_error(l.closed(), m, metadata_verified) == Some(MarketplaceError::ListingNotActive),
        cancel_error(l.closed(), l.seller) == Some(MarketplaceError::ListingNotActive),
        cancel_error(l.closed(), caller) is Some,
{
}

} // verus!
