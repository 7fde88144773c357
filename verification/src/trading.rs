//! Selling policy and the contract-material threshold check: which cargo
//! stacks go to the open market, which are kept, and when the contract
//! material is worth a delivery run.

use vstd::prelude::*;

use crate::text::str_eq;
use crate::types::Cargo;
use crate::types::Item;
use crate::types::ItemView;

verus! {

/// The resource that is never sold: it fuels the ship's jump drive.
pub open spec fn reserved_symbol() -> Seq<char> {
    "ANTIMATTER"@
}

/// The resource reserved for contract delivery rather than open-market sale.
pub open spec fn contract_material_symbol() -> Seq<char> {
    "ALUMINUM_ORE"@
}

/// The reserved resource's symbol, for callers that build requests.
pub fn reserved_symbol_text() -> (s: &'static str)
    ensures
        s@ == reserved_symbol(),
{
    "ANTIMATTER"
}

/// The contract material's symbol, for callers that build requests.
pub fn contract_material_text() -> (s: &'static str)
    ensures
        s@ == contract_material_symbol(),
{
    "ALUMINUM_ORE"
}

/// What to do with one inventory stack when the ship sells off its cargo.
#[derive(Debug, PartialEq, Eq)]
pub enum SellDecision {
    /// The reserved resource: skip silently, never sell.
    KeepReserved,
    /// The contract material: skip the sale and hold the stack for delivery.
    KeepContractMaterial,
    /// Post a sell request for this symbol and quantity.
    Sell { symbol: String, units: i8 },
}

/// Decides whether one inventory stack is sold or kept.
///
/// A sell request is emitted exactly when the stack is neither the
/// reserved resource nor the contract material; the request carries the
/// stack's own symbol and quantity.
pub fn sell_decision(item: &Item) -> (d: SellDecision)
    ensures
        d is KeepReserved <==> item@.symbol == reserved_symbol(),
        d is KeepContractMaterial <==> (item@.symbol != reserved_symbol()
            && item@.symbol == contract_material_symbol()),
        d is Sell <==> (item@.symbol != reserved_symbol()
            && item@.symbol != contract_material_symbol()),
        d matches SellDecision::Sell { symbol, units } ==> symbol@ == item@.symbol
            && units == item.units,
{
    if str_eq(item.symbol.as_str(), "ANTIMATTER") {
        SellDecision::KeepReserved
    } else if str_eq(item.symbol.as_str(), "ALUMINUM_ORE") {
        SellDecision::KeepContractMaterial
    } else {
        SellDecision::Sell { symbol: item.symbol.clone(), units: item.units }
    }
}

/// Whether a sell response reports a completed trade: the service
/// answers a successful sale with status 201; any other status is logged
/// and the remaining inventory is still processed.
pub fn sell_response_ok(status: u16) -> (b: bool)
    ensures
        b == (status == crate::extract::STATUS_CREATED),
{
    status == crate::extract::STATUS_CREATED
}

/// Numerator of the materiality threshold: the contract material is
/// delivered once it fills at least `DELIVERY_THRESHOLD_NUM /
/// DELIVERY_THRESHOLD_DEN` of the hold's capacity.
pub const DELIVERY_THRESHOLD_NUM: i32 = 3;

/// Denominator of the materiality threshold.
pub const DELIVERY_THRESHOLD_DEN: i32 = 4;

/// Whether a stack of `units` units fills at least
/// `DELIVERY_THRESHOLD_NUM / DELIVERY_THRESHOLD_DEN` of a hold of
/// `capacity` units, stated over the cross-multiplied integers.
pub open spec fn meets_threshold(units: int, capacity: int) -> bool {
    units * DELIVERY_THRESHOLD_DEN >= capacity * DELIVERY_THRESHOLD_NUM
}

/// The first inventory stack whose symbol equals `material`, if any.
pub open spec fn first_match(inv: Seq<ItemView>, material: Seq<char>) -> Option<ItemView>
    decreases inv.len(),
{
    if inv.len() == 0 {
        None
    } else if inv[0].symbol == material {
        Some(inv[0])
    } else {
        first_match(inv.skip(1), material)
    }
}

/// Looks for the contract material in a cargo snapshot and returns the
/// matching stack exactly when its fill ratio meets the materiality
/// threshold.
///
/// Returns the first inventory stack whose symbol equals `material` if
/// and only if that stack's quantity over the hold's capacity is at
/// least the threshold; returns nothing when the inventory has no
/// matching stack or the first matching stack lies below the threshold.
pub fn check_contract_material(cargo: &Cargo, material: &str) -> (r: Option<Item>)
    ensures
        match r {
            Some(item) => {
                &&& first_match(cargo@.inventory, material@) == Some(item@)
                &&& meets_threshold(item@.units, cargo@.capacity)
            },
            None => match first_match(cargo@.inventory, material@) {
                Some(it) => !meets_threshold(it.units, cargo@.capacity),
                None => true,
            },
        },
{
    let n = cargo.inventory.len();
    proof {
        assert(cargo@.inventory.skip(0) =~= cargo@.inventory);
    }
    let mut i: usize = 0;
    while i < n
        invariant
            0 <= i <= n,
            n == cargo.inventory.len(),
            n == cargo@.inventory.len(),
            first_match(cargo@.inventory, material@) == first_match(
                cargo@.inventory.skip(i as int),
                material@,
            ),
        decreases n - i,
    {
        if str_eq(cargo.inventory[i].symbol.as_str(), material) {
            proof {
                assert(cargo@.inventory[i as int] == cargo.inventory@[i as int]@);
                assert(cargo@.inventory.skip(i as int)[0] == cargo@.inventory[i as int]);
            }
            let item = cargo.inventory[i].clone();
            if (item.units as i32) * DELIVERY_THRESHOLD_DEN >= (cargo.capacity as i32)
                * DELIVERY_THRESHOLD_NUM {
                return Some(item);
            } else {
                return None;
            }
        }
        proof {
            assert(cargo@.inventory[i as int] == cargo.inventory@[i as int]@);
            assert(cargo@.inventory.skip(i as int)[0] == cargo@.inventory[i as int]);
            assert(cargo@.inventory.skip(i as int).skip(1) =~= cargo@.inventory.skip(
                i as int + 1,
            ));
        }
        i += 1;
    }
    proof {
        assert(cargo@.inventory.skip(n as int) =~= Seq::<ItemView>::empty());
    }
    None
}

} // verus!
