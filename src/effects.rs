use vstd::prelude::*;
use crate::address::Address;

verus! {

/// A holder of payment units or of an item, as seen from one record: an
/// outside account, or the custodial escrow that the record controls.
#[derive(Clone, Copy, Debug, PartialEq, Eq, Hash, Structural)]
pub enum Party {
    Account(Address),
    Escrow,
}

/// One movement of payment units that the host performs through its
/// balance-transfer primitive.
#[derive(Clone, Copy, Debug, PartialEq, Eq, Structural)]
pub struct Payment {
    pub from: Party,
    pub to: Party,
    pub amount: u64,
}

/// Which item registry carries the item; chosen explicitly by the caller,
/// never inferred.
#[derive(Clone, Copy, Debug, PartialEq, Eq, Structural)]
pub enum TransferVariant {
    Standard,
    Compressed,
}

/// One movement of the single unit of an item, performed by the host's
/// item-transfer service.
#[derive(Clone, Copy, Debug, PartialEq, Eq, Structural)]
pub struct ItemTransfer {
    pub item: Address,
    pub from: Party,
    pub to: Party,
    pub variant: TransferVariant,
}

/// Total that the payments take from `p`.
pub open spec fn debited(ps: Seq<Payment>, p: Party) -> int
    decreases ps.len(),
{
    if ps.len() == 0 {
        0
    } else {
        debited(ps.drop_last(), p) + if ps.last().from == p {
            ps.last().amount as int
        } else {
            0
        }
    }
}

/// Total that the payments give to `p`.
pub open spec fn credited(ps: Seq<Payment>, p: Party) -> int
    decreases ps.len(),
{
    if ps.len() == 0 {
        0
    } else {
        credited(ps.drop_last(), p) + if ps.last().to == p {
            ps.last().amount as int
        } else {
            0
        }
    }
}

/// How much the balance of `p` changes once all the payments are made.
pub open spec fn net_flow(ps: Seq<Payment>, p: Party) -> int {
    credited(ps, p) - debited(ps, p)
}

} // verus!
