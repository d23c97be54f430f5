use vstd::prelude::*;
use crate::address::Address;
use crate::effects::{net_flow, ItemTransfer, Party, Payment, TransferVariant};
use crate::error::MarketplaceError;
use crate::escrow::{holding_ok, Escrow, ItemAccount};
use crate::fees::{split_error, split_of, split_price};
use crate::registry::Marketplace;

verus! {

/// An English auction of one item. While it is active the escrow holds the
/// item and, once there is a bidder, exactly the highest bid.
#[derive(Clone, Copy, Debug, PartialEq, Eq, Structural)]
pub struct Auction {
    pub seller: Address,
    pub nft_mint: Address,
    pub starting_price: u64,
    pub current_bid: u64,
    pub reserve_price: u64,
    pub highest_bidder: Option<Address>,
    pub start_time: i64,
    pub end_time: i64,
    pub is_active: bool,
    pub bump: u8,
    pub escrow: Escrow,
}

/// The outcome of settling an auction: the payments out of its escrow and
/// where the item goes. `sold` tells a sale from a return to the seller.
#[derive(Debug)]
pub struct Settlement {
    pub payments: Vec<Payment>,
    pub item: ItemTransfer,
    pub sold: bool,
}

impl Auction {
    pub open spec fn wf(self) -> bool {
        &&& self.starting_price > 0
        &&& self.reserve_price >= self.starting_price
        &&& self.start_time < self.end_time
        &&& self.escrow.item == self.nft_mint
        &&& self.escrow.held == self.is_active
        &&& self.highest_bidder is None ==> self.current_bid == 0
        &&& self.highest_bidder is Some ==> self.current_bid >= self.starting_price
    }

    /// The payment units that the auction's escrow holds.
    pub open spec fn escrowed_payment(self) -> int {
        if self.is_active {
            self.current_bid as int
        } else {
            0
        }
    }

    /// Whether settling sells the item: there is a bidder and the bid reaches
    /// the reserve.
    pub open spec fn reserve_met(self) -> bool {
        self.current_bid >= self.reserve_price && self.highest_bidder is Some
    }

    /// The auction after `bidder` bids `amount`.
    pub open spec fn with_bid(self, bidder: Address, amount: u64) -> Auction {
        Auction { current_bid: amount, highest_bidder: Some(bidder), ..self }
    }

    /// The auction in its terminal state.
    pub open spec fn closed(self) -> Auction {
        Auction { is_active: false, escrow: self.escrow.emptied(), ..self }
    }
}

/// The error, if any, with which `create_auction` refuses its arguments.
pub open spec fn create_auction_error(
    seller: Address,
    nft_mint: Address,
    source: ItemAccount,
    starting_price: u64,
    reserve_price: u64,
    duration: i64,
    now: i64,
) -> Option<MarketplaceError> {
    if starting_price == 0 {
        Some(MarketplaceError::InvalidPrice)
    } else if reserve_price < starting_price {
        Some(MarketplaceError::InvalidReservePrice)
    } else if duration <= 0 {
        Some(MarketplaceError::InvalidDuration)
    } else if now + duration > i64::MAX {
        Some(MarketplaceError::MathOverflow)
    } else if !holding_ok(nft_mint, seller, source) {
        Some(MarketplaceError::InvalidItemHolding)
    } else {
        None
    }
}

/// Opens an auction that runs from `now` for `duration` seconds, taking the
/// item into escrow. It starts with no bid.
pub fn create_auction(
    seller: Address,
    nft_mint: Address,
    source: &ItemAccount,
    starting_price: u64,
    reserve_price: u64,
    duration: i64,
    now: i64,
    bump: u8,
) -> (r: Result<(Auction, ItemTransfer), MarketplaceError>)
    ensures
        match r {
            Ok((a, t)) => {
                &&& create_auction_error(
                    seller,
                    nft_mint,
                    *source,
                    starting_price,
                    reserve_price,
                    duration,
                    now,
                ) is None
                &&& a == (Auction {
                    seller,
                    nft_mint,
                    starting_price,
                    current_bid: 0,
                    reserve_price,
                    highest_bidder: None,
                    start_time: now,
                    end_time: (now + duration) as i64,
                    is_active: true,
                    bump,
                    escrow: Escrow { item: nft_mint, held: true },
                })
                &&& a.wf()
                &&& a.escrowed_payment() == 0
                &&& t == (ItemTransfer {
                    item: nft_mint,
                    from: Party::Account(seller),
                    to: Party::Escrow,
                    variant: TransferVariant::Standard,
                })
            },
            Err(e) => create_auction_error(
                seller,
                nft_mint,
                *source,
                starting_price,
                reserve_price,
                duration,
                now,
            ) == Some(e),
        },
{
    if starting_price == 0 {
        return Err(MarketplaceError::InvalidPrice);
    }
    if reserve_price < starting_price {
        return Err(MarketplaceError::InvalidReservePrice);
    }
    if duration <= 0 {
        return Err(MarketplaceError::InvalidDuration);
    }
    if now > i64::MAX - duration {
        return Err(MarketplaceError::MathOverflow);
    }
    let (escrow, transfer) = Escrow::open(nft_mint, seller, source)?;
    let auction = Auction {
        seller,
        nft_mint,
        starting_price,
        current_bid: 0,
        reserve_price,
        highest_bidder: None,
        start_time: now,
        end_time: now + duration,
        is_active: true,
        bump,
        escrow,
    };
    Ok((auction, transfer))
}

/// The error, if any, with which `place_bid` refuses a bid of `amount` at `now`.
pub open spec fn bid_error(a: Auction, amount: u64, now: i64) -> Option<MarketplaceError> {
    if !a.is_active {
        Some(MarketplaceError::AuctionNotActive)
    } else if now >= a.end_time {
        Some(MarketplaceError::AuctionEnded)
    } else if amount <= a.current_bid {
        Some(MarketplaceError::BidTooLow)
    } else if amount < a.starting_price {
        Some(MarketplaceError::BidBelowStarting)
    } else {
        None
    }
}

/// The payments of an accepted bid: first the displaced bidder gets the
/// current bid back from escrow, then the new bid goes into escrow.
pub open spec fn bid_payments(a: Auction, bidder: Address, amount: u64) -> Seq<Payment> {
    let refund = match a.highest_bidder {
        Some(prev) => seq![
            Payment { from: Party::Escrow, to: Party::Account(prev), amount: a.current_bid },
        ],
        None => Seq::empty(),
    };
    refund.push(Payment { from: Party::Account(bidder), to: Party::Escrow, amount })
}

/// Bids `amount` at time `now`. The bid must come before the end time, beat
/// the current bid and reach the starting price; the previous highest bidder,
/// if any, is refunded in full. A refused bid changes nothing.
pub fn place_bid(auction: &mut Auction, bidder: Address, amount: u64, now: i64) -> (r: Result<
    Vec<Payment>,
    MarketplaceError,
>)
    ensures
        match r {
            Ok(ps) => {
                &&& bid_error(*old(auction), amount, now) is None
                &&& *final(auction) == old(auction).with_bid(bidder, amount)
                &&& ps@ == bid_payments(*old(auction), bidder, amount)
                &&& old(auction).wf() ==> final(auction).wf()
                &&& old(auction).wf() ==> net_flow(ps@, Party::Escrow)
                    == final(auction).escrowed_payment() - old(auction).escrowed_payment()
            },
            Err(e) => bid_error(*old(auction), amount, now) == Some(e) && *final(auction) == *old(
                auction,
            ),
        },
{
    if !auction.is_active {
        return Err(MarketplaceError::AuctionNotActive);
    }
    if now >= auction.end_time {
        return Err(MarketplaceError::AuctionEnded);
    }
    if amount <= auction.current_bid {
        return Err(MarketplaceError::BidTooLow);
    }
    if amount < auction.starting_price {
        return Err(MarketplaceError::BidBelowStarting);
    }
    let mut payments: Vec<Payment> = Vec::new();
    if let Some(prev) = auction.highest_bidder {
        payments.push(
            Payment { from: Party::Escrow, to: Party::Account(prev), amount: auction.current_bid },
        );
    }
    payments.push(Payment { from: Party::Account(bidder), to: Party::Escrow, amount });
    auction.current_bid = amount;
    auction.highest_bidder = Some(bidder);
    proof {
        assert(payments@ =~= bid_payments(*old(auction), bidder, amount));
        if old(auction).wf() {
            lemma_bid_keeps_escrow_balanced(*old(auction), bidder, amount, now);
        }
    }
    Ok(payments)
}

/// The error, if any, with which `settle_auction` refuses to settle at `now`.
pub open spec fn settle_error(a: Auction, m: Marketplace, now: i64) -> Option<MarketplaceError> {
    if !a.is_active {
        Some(MarketplaceError::AuctionNotActive)
    } else if now < a.end_time {
        Some(MarketplaceError::AuctionNotEnded)
    } else if a.reserve_met() && split_error(a.current_bid as int, m.fee_basis_points as int, 0) is Some {
        split_error(a.current_bid as int, m.fee_basis_points as int, 0)
    } else if !a.escrow.held {
        Some(MarketplaceError::EscrowReleased)
    } else if a.reserve_met() && !m.can_record(a.current_bid as int) {
        Some(MarketplaceError::MathOverflow)
    } else {
        None
    }
}

/// The payments of a settlement. On a sale the escrowed bid goes to the
/// treasury (the fee) and the seller (the rest); otherwise the bidder, if
/// any, gets the bid back and no fee is charged.
pub open spec fn settle_payments(a: Auction, m: Marketplace) -> Seq<Payment> {
    if a.reserve_met() {
        let (fee, _, rest) = split_of(a.current_bid as int, m.fee_basis_points as int, 0);
        seq![
            Payment { from: Party::Escrow, to: Party::Account(m.treasury), amount: fee as u64 },
            Payment { from: Party::Escrow, to: Party::Account(a.seller), amount: rest as u64 },
        ]
    } else {
        match a.highest_bidder {
            Some(b) => seq![
                Payment { from: Party::Escrow, to: Party::Account(b), amount: a.current_bid },
            ],
            None => Seq::empty(),
        }
    }
}

/// Where settling sends the item: to the highest bidder on a sale, back to
/// the seller otherwise.
pub open spec fn settle_item(a: Auction) -> ItemTransfer {
    ItemTransfer {
        item: a.escrow.item,
        from: Party::Escrow,
        to: Party::Account(
            if a.reserve_met() {
                a.highest_bidder->Some_0
            } else {
                a.seller
            },
        ),
        variant: TransferVariant::Standard,
    }
}

/// Ends the auction at `now`, once and for all. When a bidder reached the
/// reserve the item is sold to them, the marketplace fee goes to the
/// treasury and the rest to the seller, and the sale is counted. Otherwise
/// the item returns to the seller and the bidder, if any, is refunded.
pub fn settle_auction(auction: &mut Auction, marketplace: &mut Marketplace, now: i64) -> (r: Result<
    Settlement,
    MarketplaceError,
>)
    ensures
        match r {
            Ok(s) => {
                &&& settle_error(*old(auction), *old(marketplace), now) is None
                &&& *final(auction) == old(auction).closed()
                &&& s.sold == old(auction).reserve_met()
                &&& *final(marketplace) == if s.sold {
                    old(marketplace).with_sale(old(auction).current_bid as int)
                } else {
                    *old(marketplace)
                }
                &&& s.payments@ == settle_payments(*old(auction), *old(marketplace))
                &&& s.item == settle_item(*old(auction))
                &&& final(auction).escrowed_payment() == 0
                &&& old(auction).wf() ==> net_flow(s.payments@, Party::Escrow)
                    == -old(auction).escrowed_payment()
            },
            Err(e) => {
                &&& settle_error(*old(auction), *old(marketplace), now) == Some(e)
                &&& *final(auction) == *old(auction)
                &&& *final(marketplace) == *old(marketplace)
            },
        },
{
    if !auction.is_active {
        return Err(MarketplaceError::AuctionNotActive);
    }
    if now < auction.end_time {
        return Err(MarketplaceError::AuctionNotEnded);
    }
    let price = auction.current_bid;
    let sold = price >= auction.reserve_price && auction.highest_bidder.is_some();
    let mut payments: Vec<Payment> = Vec::new();
    if sold {
        let split = split_price(price, marketplace.fee_basis_points, 0)?;
        if !auction.escrow.held {
            return Err(MarketplaceError::EscrowReleased);
        }
        if !marketplace.can_record_sale(price) {
            return Err(MarketplaceError::MathOverflow);
        }
        payments.push(
            Payment { from: Party::Escrow, to: Party::Account(marketplace.treasury), amount: split.fee },
        );
        payments.push(
            Payment {
                from: Party::Escrow,
                to: Party::Account(auction.seller),
                amount: split.seller_amount,
            },
        );
        marketplace.record_sale(price);
    } else if let Some(b) = auction.highest_bidder {
        payments.push(Payment { from: Party::Escrow, to: Party::Account(b), amount: price });
    }
    let to = if sold {
        match auction.highest_bidder {
            Some(b) => b,
            None => auction.seller,
        }
    } else {
        auction.seller
    };
    let item = auction.escrow.release(to, TransferVariant::Standard)?;
    auction.is_active = false;
    proof {
        assert(payments@ =~= settle_payments(*old(auction), *old(marketplace)));
        if old(auction).wf() {
            lemma_settle_empties_escrow(*old(auction), *old(marketplace), now);
        }
    }
    Ok(Settlement { payments, item, sold })
}

/// One accepted bid moves into escrow exactly the difference between the new
/// and the old escrowed amount, and keeps the auction well formed.
pub proof fn lemma_bid_keeps_escrow_balanced(a: Auction, bidder: Address, amount: u64, now: i64)
    requires
        a.wf(),
        bid_error(a, amount, now) is None,
    ensures
        a.with_bid(bidder, amount).wf(),
        net_flow(bid_payments(a, bidder, amount), Party::Escrow) == a.with_bid(
            bidder,
            amount,
        ).escrowed_payment() - a.escrowed_payment(),
{
    let ps = bid_payments(a, bidder, amount);
    reveal_with_fuel(crate::effects::debited, 3);
    reveal_with_fuel(crate::effects::credited, 3);
    if a.highest_bidder is Some {
        assert(ps.drop_last().drop_last() =~= Seq::<Payment>::empty());
    } else {
        assert(ps.drop_last() =~= Seq::<Payment>::empty());
    }
}

/// A settlement empties the escrow: its payments take out exactly what the
/// escrow held, and the closed auction holds nothing.
pub proof fn lemma_settle_empties_escrow(a: Auction, m: Marketplace, now: i64)
    requires
        a.wf(),
        settle_error(a, m, now) is None,
    ensures
        net_flow(settle_payments(a, m), Party::Escrow) == -a.escrowed_payment(),
        a.closed().escrowed_payment() == 0,
{
    let ps = settle_payments(a, m);
    reveal_with_fuel(crate::effects::debited, 3);
    reveal_with_fuel(crate::effects::credited, 3);
    if ps.len() == 2 {
        assert(ps.drop_last().drop_last() =~= Seq::<Payment>::empty());
    } else if ps.len() == 1 {
        assert(ps.drop_last() =~= Seq::<Payment>::empty());
    }
}

/// The auction after a run of bids `(bidder, amount, time)`, each applied as
/// `place_bid` does (a refused bid changes nothing), with the net payment
/// units that the run moved into escrow.
pub open spec fn after_bids(a: Auction, bids: Seq<(Address, u64, i64)>) -> (Auction, int)
    decreases bids.len(),
{
    if bids.len() == 0 {
        (a, 0)
    } else {
        let (prev, flow) = after_bids(a, bids.drop_last());
        let (bidder, amount, now) = bids.last();
        if bid_error(prev, amount, now) is None {
            (
                prev.with_bid(bidder, amount),
                flow + net_flow(bid_payments(prev, bidder, amount), Party::Escrow),
            )
        } else {
            (prev, flow)
        }
    }
}

/// The escrow of an auction holds exactly its current bid while it is active,
/// and nothing once it is settled: starting from a freshly created auction,
/// whose escrow holds no payment, any run of bids leaves in escrow the
/// current bid, and settling then takes all of it out.
pub proof fn lemma_escrow_tracks_current_bid(
    a: Auction,
    bids: Seq<(Address, u64, i64)>,
    m: Marketplace,
    now: i64,
)
    requires
        a.wf(),
        a.is_active,
        a.highest_bidder is None,
    ensures
        ({
            let (last, flow) = after_bids(a, bids);
            &&& last.wf()
            &&& last.is_active
            &&& flow == last.current_bid
            &&& settle_error(last, m, now) is None ==> flow + net_flow(
                settle_payments(last, m),
                Party::Escrow,
            ) == 0 && last.closed().escrowed_payment() == 0
        }),
    decreases bids.len(),
{
    if bids.len() > 0 {
        lemma_escrow_tracks_current_bid(a, bids.drop_last(), m, now);
        let (prev, flow) = after_bids(a, bids.drop_last());
        let (bidder, amount, t) = bids.last();
        if bid_error(prev, amount, t) is None {
            lemma_bid_keeps_escrow_balanced(prev, bidder, amount, t);
        }
    }
    let (last, flow) = after_bids(a, bids);
    if settle_error(last, m, now) is None {
        lemma_settle_empties_escrow(last, m, now);
    }
}

/// A bid that does not beat the current bid is refused (with `BidTooLow`
/// while the auction is open), so `place_bid` leaves the current bid and the
/// highest bidder as they were.
pub proof fn lemma_low_bid_rejected(a: Auction, amount: u64, now: i64)
    requires
        amount <= a.current_bid,
    ensures
        bid_error(a, amount, now) is Some,
        a.is_active && now < a.end_time ==> bid_error(a, amount, now) == Some(
            MarketplaceError::BidTooLow,
        ),
{
}

/// An auction leaves the active state at most once: after settling, another
/// settlement fails with `AuctionNotActive`, and so does every bid. A refused
/// call changes no record and moves nothing.
pub proof fn lemma_auction_closes_once(a: Auction, m: Marketplace, amount: u64, now: i64)
    ensures
        settle_error(a.closed(), m, now) == Some(MarketplaceError::AuctionNotActive),
        bid_error(a.closed(), amount, now) == Some(MarketplaceError::AuctionNotActive),
{
}

} // verus!
