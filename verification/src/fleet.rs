//! The fleet driver's decisions: which ships launch, how their starts
//! are staggered, and the order of the phases inside one ship's endless
//! cycle. Each ship runs its own independent loop; the loops share
//! nothing, and a launch only fixes the ship's name and its start delay.

use vstd::prelude::*;

verus! {

/// Seconds between the starts of two consecutively launched ships, so
/// that the fleet does not hit the service all at once at process start.
pub const LAUNCH_STAGGER_SECONDS: u64 = 10;

/// One ship's launch: its name and how long it waits before its first
/// action.
pub struct LaunchPlan {
    pub ship: String,
    pub delay_seconds: u64,
}

/// Plans the fleet's launch: one independent loop per ship, in the given
/// order, the start of ship `i` delayed by `i` times the stagger.
pub fn fleet_launch_plan(ships: &Vec<String>) -> (plans: Vec<LaunchPlan>)
    requires
        ships@.len() * LAUNCH_STAGGER_SECONDS <= u64::MAX,
    ensures
        plans@.len() == ships@.len(),
        forall|i: int|
            0 <= i < plans@.len() ==> (#[trigger] plans@[i]).ship@ == ships@[i]@
                && plans@[i].delay_seconds == i * LAUNCH_STAGGER_SECONDS,
{
    let mut plans: Vec<LaunchPlan> = Vec::new();
    let n = ships.len();
    let mut i: usize = 0;
    while i < n
        invariant
            0 <= i <= n,
            n == ships@.len(),
            n * LAUNCH_STAGGER_SECONDS <= u64::MAX,
            plans@.len() == i,
            forall|j: int|
                0 <= j < i ==> (#[trigger] plans@[j]).ship@ == ships@[j]@
                    && plans@[j].delay_seconds == j * LAUNCH_STAGGER_SECONDS,
        decreases n - i,
    {
        proof {
            assert(i * LAUNCH_STAGGER_SECONDS <= n * LAUNCH_STAGGER_SECONDS) by (nonlinear_arith)
                requires
                    0 <= i <= n,
            ;
        }
        let delay: u64 = (i as u64) * LAUNCH_STAGGER_SECONDS;
        plans.push(LaunchPlan { ship: ships[i].clone(), delay_seconds: delay });
        i += 1;
    }
    plans
}

/// The phases of one ship's endless cycle, in the order they run.
#[derive(Clone, Copy, PartialEq, Eq, Structural, Debug)]
pub enum CyclePhase {
    /// Extract until the hold is full or the response is terminal.
    Extracting,
    /// Query the cargo snapshot.
    FetchingCargo,
    /// Deliver the contract material when the threshold check returns a
    /// stack; otherwise this phase does nothing.
    Delivering,
    /// Sell the remaining inventory stacks in their original order.
    Selling,
}

/// The phase a ship's loop starts in: extraction.
pub fn cycle_initial_phase() -> (p: CyclePhase)
    ensures
        p == CyclePhase::Extracting,
{
    CyclePhase::Extracting
}

/// The phase that follows `p` in a ship's cycle.
pub open spec fn spec_cycle_next_phase(p: CyclePhase) -> CyclePhase {
    match p {
        CyclePhase::Extracting => CyclePhase::FetchingCargo,
        CyclePhase::FetchingCargo => CyclePhase::Delivering,
        CyclePhase::Delivering => CyclePhase::Selling,
        CyclePhase::Selling => CyclePhase::Extracting,
    }
}

/// Advances a ship's loop to its next phase; after selling, the cycle
/// begins again with extraction, without end.
pub fn cycle_next_phase(p: CyclePhase) -> (n: CyclePhase)
    ensures
        n == spec_cycle_next_phase(p),
{
    match p {
        CyclePhase::Extracting => CyclePhase::FetchingCargo,
        CyclePhase::FetchingCargo => CyclePhase::Delivering,
        CyclePhase::Delivering => CyclePhase::Selling,
        CyclePhase::Selling => CyclePhase::Extracting,
    }
}

} // verus!
