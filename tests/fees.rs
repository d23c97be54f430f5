use nft_marketplace::{calculate_fee, split_price, FeeSplit, MarketplaceError};

#[test]
fn split_of_listing_price() {
    let s = split_price(1000, 250, 500).unwrap();
    assert_eq!(s, FeeSplit { fee: 25, royalty: 50, seller_amount: 925 });
    assert_eq!(s.fee + s.royalty + s.seller_amount, 1000);
}

#[test]
fn split_rounds_down_and_conserves_price() {
    let s = split_price(9999, 1, 1).unwrap();
    assert_eq!(s, FeeSplit { fee: 0, royalty: 0, seller_amount: 9999 });
    let s = split_price(333, 3333, 3333).unwrap();
    assert_eq!(s.fee, 110);
    assert_eq!(s.royalty, 110);
    assert_eq!(s.fee + s.royalty + s.seller_amount, 333);
    for price in [1u64, 7, 99, 10001, 123456789] {
        for (f, r) in [(0u16, 0u16), (250, 500), (9999, 1), (5000, 5000), (1234, 4321)] {
            let s = split_price(price, f, r).unwrap();
            assert_eq!(s.fee + s.royalty + s.seller_amount, price);
            let exact_seller = price as u128 * (10000 - f as u128 - r as u128);
            let seller_scaled = s.seller_amount as u128 * 10000;
            assert!(seller_scaled >= exact_seller);
            assert!(seller_scaled - exact_seller < 20000);
        }
    }
}

#[test]
fn split_of_largest_price() {
    let s = split_price(u64::MAX, 10000, 0).unwrap();
    assert_eq!(s, FeeSplit { fee: u64::MAX, royalty: 0, seller_amount: 0 });
    assert_eq!(calculate_fee(u64::MAX, 10000), u64::MAX);
    assert_eq!(calculate_fee(u64::MAX, 5000), u64::MAX / 2);
}

#[test]
fn split_errors() {
    assert_eq!(split_price(1000, 10001, 0), Err(MarketplaceError::InvalidFee));
    assert_eq!(split_price(1000, 0, 5001), Err(MarketplaceError::InvalidRoyalty));
    assert_eq!(split_price(1000, 10000, 5000), Err(MarketplaceError::MathOverflow));
    assert_eq!(split_price(1000, 10000, 0).unwrap().seller_amount, 0);
}
