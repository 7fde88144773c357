//! The data carried between the remote service and the decision logic:
//! cargo snapshots, cooldowns, and navigation results, as plain values.

use vstd::prelude::*;

verus! {

/// One stack of a resource inside a ship's cargo hold, as reported by a
/// cargo query. Only valid as a snapshot: the hold changes with every
/// extraction and sale.
#[derive(Debug, PartialEq, Eq)]
pub struct Item {
    /// Resource type identifier, e.g. `"IRON_ORE"`.
    pub symbol: String,
    /// How many units of that resource the stack holds.
    pub units: i8,
}

/// Mathematical image of an [`Item`].
pub struct ItemView {
    pub symbol: Seq<char>,
    pub units: int,
}

impl View for Item {
    type V = ItemView;

    open spec fn view(&self) -> ItemView {
        ItemView { symbol: self.symbol@, units: self.units as int }
    }
}

impl Clone for Item {
    fn clone(&self) -> (r: Self)
        ensures
            r == *self,
    {
        Item { symbol: self.symbol.clone(), units: self.units }
    }
}

/// A ship's inventory container with finite capacity.
pub struct Cargo {
    /// Maximum number of units the hold can carry.
    pub capacity: i8,
    /// Units currently carried; never exceeds `capacity`.
    pub units: i8,
    /// The stacks currently held, in the order the service reports them.
    pub inventory: Vec<Item>,
}

/// Mathematical image of a [`Cargo`].
pub struct CargoView {
    pub capacity: int,
    pub units: int,
    pub inventory: Seq<ItemView>,
}

impl View for Cargo {
    type V = CargoView;

    open spec fn view(&self) -> CargoView {
        CargoView {
            capacity: self.capacity as int,
            units: self.units as int,
            inventory: self.inventory@.map_values(|it: Item| it@),
        }
    }
}

impl Cargo {
    /// Invariant of every cargo snapshot: the fill level lies between
    /// empty and the hold's capacity, and no stack is negative.
    pub open spec fn wf(self) -> bool {
        &&& 0 <= self@.units <= self@.capacity
        &&& forall|i: int|
            0 <= i < self@.inventory.len() ==> (#[trigger] self@.inventory[i]).units >= 0
    }

    /// Builds a cargo snapshot from the fields of a cargo query response,
    /// accepting exactly the snapshots that satisfy the invariant.
    pub fn new(capacity: i8, units: i8, inventory: Vec<Item>) -> (r: Option<Cargo>)
        ensures
            match r {
                Some(c) => {
                    &&& c.wf()
                    &&& c.capacity == capacity
                    &&& c.units == units
                    &&& c.inventory@ == inventory@
                },
                None => !(Cargo { capacity, units, inventory }).wf(),
            },
    {
        if !(0 <= units && units <= capacity) {
            return None;
        }
        let mut i: usize = 0;
        while i < inventory.len()
            invariant
                0 <= i <= inventory.len(),
                forall|j: int| 0 <= j < i ==> (#[trigger] inventory@[j])@.units >= 0,
            decreases inventory.len() - i,
        {
            if inventory[i].units < 0 {
                proof {
                    let c = Cargo { capacity, units, inventory };
                    assert(c@.inventory[i as int].units < 0);
                }
                return None;
            }
            i += 1;
        }
        let c = Cargo { capacity, units, inventory };
        proof {
            assert(forall|j: int|
                0 <= j < c@.inventory.len() ==> (#[trigger] c@.inventory[j]).units >= 0);
        }
        Some(c)
    }
}

/// A server-enforced minimum wait before a ship may extract again.
/// Produced by a successful extraction and by an extraction rejected
/// while a cooldown is still running.
pub struct Cooldown {
    /// The ship the cooldown applies to.
    pub ship_symbol: String,
    /// Full length of the cooldown in seconds.
    pub total_seconds: u8,
    /// Seconds still to wait before the next extraction.
    pub remaining_seconds: u8,
    /// Timestamp at which the cooldown ends, as reported by the service.
    pub expiration: String,
}

impl Cooldown {
    /// How long the owning ship's loop must pause before retrying.
    pub fn wait_seconds(&self) -> (s: u64)
        ensures
            s == self.remaining_seconds as u64,
    {
        self.remaining_seconds as u64
    }
}

/// A named location within a star system that ships navigate between.
pub struct WayPoint {
    pub symbol: String,
    pub system_symbol: String,
    pub x: i8,
    pub y: i8,
}

/// The route of one navigation command: where the ship left from, where
/// it is headed, and when it arrives.
pub struct Route {
    pub destination: WayPoint,
    pub departure: WayPoint,
    /// Arrival timestamp in RFC 3339 form, as reported by the service.
    pub arrival: String,
}

/// Result of a navigation command; consumed immediately to compute the
/// transit wait and, on a delivery run, to know the return waypoint.
pub struct Nav {
    pub system_symbol: String,
    pub waypoint_symbol: String,
    pub route: Route,
}

} // verus!
