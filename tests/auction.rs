use std::collections::HashMap;

use nft_marketplace::{
    create_auction, initialize_marketplace, place_bid, settle_auction, Address, Auction,
    ItemAccount, ItemTransfer, Marketplace, MarketplaceError, Party, Payment, TransferVariant,
};

fn addr(n: u128) -> Address {
    Address::new(n, 0)
}

const SELLER: u128 = 1;
const ALICE: u128 = 2;
const BOB: u128 = 3;
const MINT: u128 = 4;
const TREASURY: u128 = 5;
const START: i64 = 1_000;
const DURATION: i64 = 3600;

fn market() -> Marketplace {
    initialize_marketplace(addr(9), addr(TREASURY), 250, 1).unwrap()
}

fn holding() -> ItemAccount {
    ItemAccount { mint: addr(MINT), owner: addr(SELLER), amount: 1 }
}

fn auction() -> Auction {
    create_auction(addr(SELLER), addr(MINT), &holding(), 100, 150, DURATION, START, 7).unwrap().0
}

/// Payment balances, applied as the host applies a list of payments.
struct Ledger {
    balances: HashMap<Party, i128>,
}

impl Ledger {
    fn new() -> Ledger {
        Ledger { balances: HashMap::new() }
    }

    fn apply(&mut self, ps: &[Payment]) {
        for p in ps {
            *self.balances.entry(p.from).or_insert(0) -= p.amount as i128;
            *self.balances.entry(p.to).or_insert(0) += p.amount as i128;
        }
    }

    fn of(&self, p: Party) -> i128 {
        *self.balances.get(&p).unwrap_or(&0)
    }
}

#[test]
fn create_auction_opens_escrow() {
    let (a, t) =
        create_auction(addr(SELLER), addr(MINT), &holding(), 100, 150, DURATION, START, 7).unwrap();
    assert!(a.is_active);
    assert_eq!(a.current_bid, 0);
    assert_eq!(a.highest_bidder, None);
    assert_eq!(a.start_time, START);
    assert_eq!(a.end_time, START + DURATION);
    assert!(a.escrow.held);
    assert_eq!(
        t,
        ItemTransfer {
            item: addr(MINT),
            from: Party::Account(addr(SELLER)),
            to: Party::Escrow,
            variant: TransferVariant::Standard,
        }
    );
}

#[test]
fn create_auction_errors() {
    let h = holding();
    let (s, m) = (addr(SELLER), addr(MINT));
    assert_eq!(create_auction(s, m, &h, 0, 150, 10, 0, 0).unwrap_err(), MarketplaceError::InvalidPrice);
    assert_eq!(
        create_auction(s, m, &h, 100, 99, 10, 0, 0).unwrap_err(),
        MarketplaceError::InvalidReservePrice
    );
    assert!(create_auction(s, m, &h, 100, 100, 10, 0, 0).is_ok());
    assert_eq!(create_auction(s, m, &h, 100, 150, 0, 0, 0).unwrap_err(), MarketplaceError::InvalidDuration);
    assert_eq!(create_auction(s, m, &h, 100, 150, -5, 0, 0).unwrap_err(), MarketplaceError::InvalidDuration);
    assert_eq!(
        create_auction(s, m, &h, 100, 150, 1, i64::MAX, 0).unwrap_err(),
        MarketplaceError::MathOverflow
    );
    let stranger = ItemAccount { owner: addr(ALICE), ..h };
    assert_eq!(
        create_auction(s, m, &stranger, 100, 150, 10, 0, 0).unwrap_err(),
        MarketplaceError::InvalidItemHolding
    );
}

#[test]
fn auction_reserve_met_sells_to_highest_bidder() {
    let mut a = auction();
    let mut m = market();
    let mut ledger = Ledger::new();

    let ps = place_bid(&mut a, addr(ALICE), 120, START + 10).unwrap();
    assert_eq!(ps, vec![Payment { from: Party::Account(addr(ALICE)), to: Party::Escrow, amount: 120 }]);
    ledger.apply(&ps);
    assert_eq!(a.current_bid, 120);
    assert_eq!(a.highest_bidder, Some(addr(ALICE)));
    assert_eq!(ledger.of(Party::Escrow), 120);

    let ps = place_bid(&mut a, addr(BOB), 150, START + DURATION - 1).unwrap();
    assert_eq!(
        ps,
        vec![
            Payment { from: Party::Escrow, to: Party::Account(addr(ALICE)), amount: 120 },
            Payment { from: Party::Account(addr(BOB)), to: Party::Escrow, amount: 150 },
        ]
    );
    ledger.apply(&ps);
    assert_eq!(a.current_bid, 150);
    assert_eq!(ledger.of(Party::Escrow), 150);
    assert_eq!(ledger.of(Party::Account(addr(ALICE))), 0);

    let s = settle_auction(&mut a, &mut m, START + DURATION + 1).unwrap();
    assert!(s.sold);
    // 2.5% of 150 is 3.75, rounded down.
    assert_eq!(
        s.payments,
        vec![
            Payment { from: Party::Escrow, to: Party::Account(addr(TREASURY)), amount: 3 },
            Payment { from: Party::Escrow, to: Party::Account(addr(SELLER)), amount: 147 },
        ]
    );
    assert_eq!(
        s.item,
        ItemTransfer {
            item: addr(MINT),
            from: Party::Escrow,
            to: Party::Account(addr(BOB)),
            variant: TransferVariant::Standard,
        }
    );
    ledger.apply(&s.payments);
    assert_eq!(ledger.of(Party::Escrow), 0);
    assert_eq!(ledger.of(Party::Account(addr(SELLER))), 147);
    assert_eq!(ledger.of(Party::Account(addr(TREASURY))), 3);
    assert_eq!(ledger.of(Party::Account(addr(BOB))), -150);
    assert!(!a.is_active);
    assert_eq!(m.total_sales, 1);
    assert_eq!(m.total_volume, 150);
}

#[test]
fn auction_reserve_not_met_returns_item() {
    let mut a = auction();
    let mut m = market();
    let m0 = m;
    let mut ledger = Ledger::new();
    ledger.apply(&place_bid(&mut a, addr(ALICE), 140, START + 1).unwrap());
    let s = settle_auction(&mut a, &mut m, START + DURATION).unwrap();
    assert!(!s.sold);
    assert_eq!(
        s.payments,
        vec![Payment { from: Party::Escrow, to: Party::Account(addr(ALICE)), amount: 140 }]
    );
    assert_eq!(s.item.to, Party::Account(addr(SELLER)));
    ledger.apply(&s.payments);
    assert_eq!(ledger.of(Party::Escrow), 0);
    assert_eq!(ledger.of(Party::Account(addr(ALICE))), 0);
    assert_eq!(ledger.of(Party::Account(addr(TREASURY))), 0);
    assert_eq!(m, m0);
    assert!(!a.is_active);
}

#[test]
fn auction_without_bids_returns_item() {
    let mut a = auction();
    let mut m = market();
    let s = settle_auction(&mut a, &mut m, START + DURATION).unwrap();
    assert!(!s.sold);
    assert!(s.payments.is_empty());
    assert_eq!(s.item.to, Party::Account(addr(SELLER)));
}

#[test]
fn low_bids_are_refused_without_change() {
    let mut a = auction();
    assert_eq!(place_bid(&mut a, addr(ALICE), 50, START), Err(MarketplaceError::BidBelowStarting));
    assert_eq!(place_bid(&mut a, addr(ALICE), 0, START), Err(MarketplaceError::BidTooLow));
    place_bid(&mut a, addr(ALICE), 120, START).unwrap();
    let a0 = a;
    assert_eq!(place_bid(&mut a, addr(BOB), 120, START), Err(MarketplaceError::BidTooLow));
    assert_eq!(place_bid(&mut a, addr(BOB), 119, START), Err(MarketplaceError::BidTooLow));
    assert_eq!(a, a0);
    assert_eq!(a.current_bid, 120);
    assert_eq!(a.highest_bidder, Some(addr(ALICE)));
}

#[test]
fn bidding_window_excludes_end_time() {
    let mut a = auction();
    let end = a.end_time;
    assert_eq!(place_bid(&mut a, addr(ALICE), 120, end), Err(MarketplaceError::AuctionEnded));
    assert!(place_bid(&mut a, addr(ALICE), 120, end - 1).is_ok());
    let mut m = market();
    assert_eq!(settle_auction(&mut a, &mut m, end - 1).unwrap_err(), MarketplaceError::AuctionNotEnded);
    assert!(settle_auction(&mut a, &mut m, end).is_ok());
}

#[test]
fn settle_twice_fails_without_change() {
    let mut a = auction();
    let mut m = market();
    place_bid(&mut a, addr(ALICE), 200, START).unwrap();
    settle_auction(&mut a, &mut m, START + DURATION).unwrap();
    let (a1, m1) = (a, m);
    assert_eq!(
        settle_auction(&mut a, &mut m, START + DURATION + 5).unwrap_err(),
        MarketplaceError::AuctionNotActive
    );
    assert_eq!(place_bid(&mut a, addr(BOB), 500, START), Err(MarketplaceError::AuctionNotActive));
    assert_eq!((a, m), (a1, m1));
}

#[test]
fn escrow_holds_current_bid_through_bidding_war() {
    let mut a = auction();
    let mut ledger = Ledger::new();
    let mut amount = 100u64;
    for i in 0..10u128 {
        let bidder = addr(100 + i % 3);
        ledger.apply(&place_bid(&mut a, bidder, amount, START + i as i64).unwrap());
        assert_eq!(ledger.of(Party::Escrow), a.current_bid as i128);
        amount += 7;
    }
    let mut m = market();
    let s = settle_auction(&mut a, &mut m, START + DURATION).unwrap();
    ledger.apply(&s.payments);
    assert_eq!(ledger.of(Party::Escrow), 0);
}
