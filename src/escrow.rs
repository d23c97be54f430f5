use vstd::prelude::*;
use crate::address::Address;
use crate::effects::{ItemTransfer, Party, TransferVariant};
use crate::error::MarketplaceError;

verus! {

/// What the host reports of the account an item is taken from.
#[derive(Clone, Copy, Debug, PartialEq, Eq, Structural)]
pub struct ItemAccount {
    pub mint: Address,
    pub owner: Address,
    pub amount: u64,
}

/// Custody of one unit of an item under the authority of the record that
/// opened it. It is opened once and released at most once.
#[derive(Clone, Copy, Debug, PartialEq, Eq, Structural)]
pub struct Escrow {
    pub item: Address,
    pub held: bool,
}

/// Whether `source` is exactly one unit of `item` owned by `owner`.
pub open spec fn holding_ok(item: Address, owner: Address, source: ItemAccount) -> bool {
    source.mint == item && source.owner == owner && source.amount == 1
}

impl Escrow {
    /// The same escrow once its unit has gone out.
    pub open spec fn emptied(self) -> Escrow {
        Escrow { held: false, ..self }
    }

    /// Takes the single unit of `item` from `owner` into custody. Fails
    /// unless `source` is exactly one unit of that item owned by `owner`.
    pub fn open(item: Address, owner: Address, source: &ItemAccount) -> (r: Result<
        (Escrow, ItemTransfer),
        MarketplaceError,
    >)
        ensures
            match r {
                Ok((e, t)) => holding_ok(item, owner, *source) && e == (Escrow { item, held: true })
                    && t == (ItemTransfer {
                    item,
                    from: Party::Account(owner),
                    to: Party::Escrow,
                    variant: TransferVariant::Standard,
                }),
                Err(err) => !holding_ok(item, owner, *source) && err
                    == MarketplaceError::InvalidItemHolding,
            },
    {
        if source.mint == item && source.owner == owner && source.amount == 1 {
            let t = ItemTransfer {
                item,
                from: Party::Account(owner),
                to: Party::Escrow,
                variant: TransferVariant::Standard,
            };
            Ok((Escrow { item, held: true }, t))
        } else {
            Err(MarketplaceError::InvalidItemHolding)
        }
    }

    /// Sends the held unit to `to`; afterwards the escrow is empty and every
    /// further release fails.
    pub(crate) fn release(&mut self, to: Address, variant: TransferVariant) -> (r: Result<
        ItemTransfer,
        MarketplaceError,
    >)
        ensures
            match r {
                Ok(t) => old(self).held && *final(self) == old(self).emptied() && t == (ItemTransfer {
                    item: old(self).item,
                    from: Party::Escrow,
                    to: Party::Account(to),
                    variant,
                }),
                Err(e) => !old(self).held && e == MarketplaceError::EscrowReleased && *final(self)
                    == *old(self),
            },
    {
        if !self.held {
            return Err(MarketplaceError::EscrowReleased);
        }
        self.held = false;
        Ok(ItemTransfer { item: self.item, from: Party::Escrow, to: Party::Account(to), variant })
    }
}

} // verus!
