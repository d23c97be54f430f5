use vstd::prelude::*;
use crate::address::Address;
use crate::error::MarketplaceError;
use crate::fees::MAX_FEE_BPS;

verus! {

/// The marketplace's single configuration record and its running totals.
#[derive(Clone, Copy, Debug, PartialEq, Eq, Structural)]
pub struct Marketplace {
    pub authority: Address,
    pub treasury: Address,
    pub fee_basis_points: u16,
    pub total_sales: u64,
    pub total_volume: u64,
    pub bump: u8,
}

impl Marketplace {
    pub open spec fn wf(self) -> bool {
        self.fee_basis_points <= MAX_FEE_BPS
    }

    /// Whether one more sale at `price` keeps both totals in range.
    pub open spec fn can_record(self, price: int) -> bool {
        self.total_sales + 1 <= u64::MAX && self.total_volume + price <= u64::MAX
    }

    /// The record after one more sale at `price`.
    pub open spec fn with_sale(self, price: int) -> Marketplace {
        Marketplace {
            total_sales: (self.total_sales + 1) as u64,
            total_volume: (self.total_volume + price) as u64,
            ..self
        }
    }

    pub fn can_record_sale(&self, price: u64) -> (r: bool)
        ensures
            r == self.can_record(price as int),
    {
        self.total_sales < u64::MAX && price <= u64::MAX - self.total_volume
    }

    pub(crate) fn record_sale(&mut self, price: u64)
        requires
            old(self).can_record(price as int),
        ensures
            *final(self) == old(self).with_sale(price as int),
    {
        self.total_sales = self.total_sales + 1;
        self.total_volume = self.total_volume + price;
    }
}

/// Creates the marketplace record with no sales yet. Fails with `InvalidFee`
/// when the fee rate exceeds a whole.
pub fn initialize_marketplace(
    authority: Address,
    treasury: Address,
    fee_basis_points: u16,
    bump: u8,
) -> (r: Result<Marketplace, MarketplaceError>)
    ensures
        match r {
            Ok(m) => fee_basis_points <= MAX_FEE_BPS && m == (Marketplace {
                authority,
                treasury,
                fee_basis_points,
                total_sales: 0,
                total_volume: 0,
                bump,
            }),
            Err(e) => fee_basis_points > MAX_FEE_BPS && e == MarketplaceError::InvalidFee,
        },
{
    if fee_basis_points > MAX_FEE_BPS {
        return Err(MarketplaceError::InvalidFee);
    }
    Ok(Marketplace { authority, treasury, fee_basis_points, total_sales: 0, total_volume: 0, bump })
}

} // verus!
