use vstd::prelude::*;
use crate::error::MarketplaceError;

verus! {

/// Basis points in a whole.
pub const BPS_DENOMINATOR: u64 = 10000;

/// Largest marketplace fee rate, in basis points.
pub const MAX_FEE_BPS: u16 = 10000;

/// Largest royalty rate, in basis points.
pub const MAX_ROYALTY_BPS: u16 = 5000;

/// `bps` basis points of `amount`, rounded down.
pub open spec fn bps_share(amount: int, bps: int) -> int {
    amount * bps / 10000
}

/// Whether the fee and the royalty together fit inside the price.
pub open spec fn split_fits(price: int, fee_bps: int, royalty_bps: int) -> bool {
    bps_share(price, fee_bps) + bps_share(price, royalty_bps) <= price
}

/// How a price is divided among the fee treasury, the royalty recipient and
/// the seller.
#[derive(Clone, Copy, Debug, PartialEq, Eq, Structural)]
pub struct FeeSplit {
    pub fee: u64,
    pub royalty: u64,
    pub seller_amount: u64,
}

/// The split that a valid price and pair of rates must produce.
pub open spec fn split_of(price: int, fee_bps: int, royalty_bps: int) -> (int, int, int) {
    (
        bps_share(price, fee_bps),
        bps_share(price, royalty_bps),
        price - bps_share(price, fee_bps) - bps_share(price, royalty_bps),
    )
}

/// The error, if any, that `split_price` reports for these arguments.
pub open spec fn split_error(price: int, fee_bps: int, royalty_bps: int) -> Option<MarketplaceError> {
    if fee_bps > MAX_FEE_BPS {
        Some(MarketplaceError::InvalidFee)
    } else if royalty_bps > MAX_ROYALTY_BPS {
        Some(MarketplaceError::InvalidRoyalty)
    } else if !split_fits(price, fee_bps, royalty_bps) {
        Some(MarketplaceError::MathOverflow)
    } else {
        None
    }
}

proof fn lemma_share_bounded(amount: u64, bps: u16)
    requires
        bps <= 10000,
    ensures
        0 <= bps_share(amount as int, bps as int) <= amount,
        (amount as int) * (bps as int) <= 0xffff_ffff_ffff_ffffu64 as int * 10000,
{
    assert(0 <= (amount as int) * (bps as int) <= (amount as int) * 10000) by (nonlinear_arith)
        requires
            bps <= 10000,
    ;
    assert((amount as int) * 10000 <= 0xffff_ffff_ffff_ffffu64 as int * 10000) by (nonlinear_arith);
    assert(((amount as int) * (bps as int)) / 10000 <= ((amount as int) * 10000) / 10000)
        by (nonlinear_arith)
        requires
            (amount as int) * (bps as int) <= (amount as int) * 10000,
    ;
    assert(((amount as int) * 10000) / 10000 == amount) by (nonlinear_arith);
    assert(0 <= ((amount as int) * (bps as int)) / 10000) by (nonlinear_arith)
        requires
            0 <= (amount as int) * (bps as int),
    ;
}

/// `bps` basis points of `amount`, rounded down. The product is formed in
/// 128 bits, so it cannot overflow.
pub fn calculate_fee(amount: u64, bps: u16) -> (r: u64)
    requires
        bps <= MAX_FEE_BPS,
    ensures
        r == bps_share(amount as int, bps as int),
        r <= amount,
{
    proof {
        lemma_share_bounded(amount, bps);
    }
    let wide: u128 = (amount as u128) * (bps as u128);
    (wide / (BPS_DENOMINATOR as u128)) as u64
}

/// Splits `price` into the marketplace fee, the royalty and what is left for
/// the seller. Fails when a rate is out of range, or when fee and royalty
/// together exceed the price; nothing is paid in that case.
pub fn split_price(price: u64, fee_bps: u16, royalty_bps: u16) -> (r: Result<FeeSplit, MarketplaceError>)
    ensures
        match r {
            Ok(s) => split_error(price as int, fee_bps as int, royalty_bps as int) is None
                && (s.fee as int, s.royalty as int, s.seller_amount as int)
                    == split_of(price as int, fee_bps as int, royalty_bps as int),
            Err(e) => split_error(price as int, fee_bps as int, royalty_bps as int) == Some(e),
        },
{
    if fee_bps > MAX_FEE_BPS {
        return Err(MarketplaceError::InvalidFee);
    }
    if royalty_bps > MAX_ROYALTY_BPS {
        return Err(MarketplaceError::InvalidRoyalty);
    }
    let fee = calculate_fee(price, fee_bps);
    let royalty = calculate_fee(price, royalty_bps);
    let after_fee = price - fee;
    if royalty > after_fee {
        return Err(MarketplaceError::MathOverflow);
    }
    Ok(FeeSplit { fee, royalty, seller_amount: after_fee - royalty })
}

/// For every split that succeeds, fee, royalty and seller amount add up to the
/// price exactly, and what rounding withholds from the exact proportional
/// shares of fee and royalty is less than two units, all of it left with the
/// seller.
pub proof fn lemma_split_conserves_price(price: u64, fee_bps: u16, royalty_bps: u16)
    requires
        split_error(price as int, fee_bps as int, royalty_bps as int) is None,
    ensures
        ({
            let (fee, royalty, seller) = split_of(price as int, fee_bps as int, royalty_bps as int);
            &&& fee + royalty + seller == price
            &&& 0 <= fee && 0 <= royalty && 0 <= seller
            &&& 0 <= 10000 * seller - price * (10000 - fee_bps - royalty_bps) < 2 * 10000
        }),
{
    let p = price as int;
    let f = fee_bps as int;
    let q = royalty_bps as int;
    lemma_share_bounded(price, fee_bps);
    lemma_share_bounded(price, royalty_bps);
    let fee = bps_share(p, f);
    let royalty = bps_share(p, q);
    assert(0 <= p * f - 10000 * fee < 10000) by (nonlinear_arith)
        requires
            fee == p * f / 10000,
            p >= 0,
            f >= 0,
    ;
    assert(0 <= p * q - 10000 * royalty < 10000) by (nonlinear_arith)
        requires
            royalty == p * q / 10000,
            p >= 0,
            q >= 0,
    ;
    assert(p * (10000 - f - q) == 10000 * p - p * f - p * q) by (nonlinear_arith);
}

} // verus!
