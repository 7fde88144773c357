//! The per-ship mission plans: the primitive actions a ship's loop
//! performs against the service, the plan of a delivery run, and the
//! plan of a sell phase. A plan is a sequence of actions; the runner
//! performs each action in order, sleeping where the plan pauses and
//! waiting out each navigation's transit. A small location model — at
//! which waypoint the ship stands and whether it is docked — states what
//! a plan does to the ship's whereabouts.

use vstd::prelude::*;

use crate::trading::contract_material_symbol;
use crate::trading::reserved_symbol;
use crate::trading::sell_decision;
use crate::trading::SellDecision;
use crate::types::Cargo;
use crate::types::Item;
use crate::types::ItemView;

verus! {

/// Fixed pacing, in seconds, between two consecutive sell attempts.
pub const SELL_PACING_SECONDS: u64 = 2;

/// One primitive operation of a ship's loop against the service.
#[derive(Debug, PartialEq, Eq)]
pub enum ShipAction {
    /// Post an extraction for the ship.
    Extract,
    /// Query the ship resource for its cargo snapshot.
    FetchCargo,
    /// Post a dock request.
    Dock,
    /// Post a refuel request; the ship must already be docked.
    Refuel,
    /// Post a navigation to the waypoint and wait out the transit; the
    /// ship ends in orbit at the waypoint.
    NavigateTo { waypoint: String },
    /// Post a sell request for this symbol and quantity.
    SellItem { symbol: String, units: i8 },
    /// Post a contract delivery of this ship's stack of the trade symbol.
    DeliverCargo { contract_id: String, trade_symbol: String, units: i8 },
    /// Sleep this many seconds.
    Pause { seconds: u64 },
}

/// Mathematical image of a [`ShipAction`].
pub enum ShipActionView {
    Extract,
    FetchCargo,
    Dock,
    Refuel,
    NavigateTo { waypoint: Seq<char> },
    SellItem { symbol: Seq<char>, units: int },
    DeliverCargo { contract_id: Seq<char>, trade_symbol: Seq<char>, units: int },
    Pause { seconds: u64 },
}

impl View for ShipAction {
    type V = ShipActionView;

    open spec fn view(&self) -> ShipActionView {
        match self {
            ShipAction::Extract => ShipActionView::Extract,
            ShipAction::FetchCargo => ShipActionView::FetchCargo,
            ShipAction::Dock => ShipActionView::Dock,
            ShipAction::Refuel => ShipActionView::Refuel,
            ShipAction::NavigateTo { waypoint } => ShipActionView::NavigateTo {
                waypoint: waypoint@,
            },
            ShipAction::SellItem { symbol, units } => ShipActionView::SellItem {
                symbol: symbol@,
                units: *units as int,
            },
            ShipAction::DeliverCargo { contract_id, trade_symbol, units } => {
                ShipActionView::DeliverCargo {
                    contract_id: contract_id@,
                    trade_symbol: trade_symbol@,
                    units: *units as int,
                }
            },
            ShipAction::Pause { seconds } => ShipActionView::Pause { seconds: *seconds },
        }
    }
}

/// The image of a whole plan.
pub open spec fn plan_view(plan: Seq<ShipAction>) -> Seq<ShipActionView> {
    plan.map_values(|a: ShipAction| a@)
}

/// Where a ship stands: its waypoint, and whether it is docked there
/// rather than holding orbit.
pub struct SiteView {
    pub waypoint: Seq<char>,
    pub docked: bool,
}

/// What one action does to a ship's whereabouts: navigating moves the
/// ship into orbit at the target, docking docks it where it stands, and
/// every other action leaves it in place.
pub open spec fn apply_action(site: SiteView, a: ShipActionView) -> SiteView {
    match a {
        ShipActionView::NavigateTo { waypoint } => SiteView { waypoint, docked: false },
        ShipActionView::Dock => SiteView { waypoint: site.waypoint, docked: true },
        _ => site,
    }
}

/// Where a ship ends after performing a plan in order.
pub open spec fn apply_actions(site: SiteView, acts: Seq<ShipActionView>) -> SiteView
    decreases acts.len(),
{
    if acts.len() == 0 {
        site
    } else {
        apply_actions(apply_action(site, acts[0]), acts.skip(1))
    }
}

proof fn lemma_apply_cons(site: SiteView, a: ShipActionView, rest: Seq<ShipActionView>)
    ensures
        apply_actions(site, seq![a] + rest) == apply_actions(apply_action(site, a), rest),
{
    assert((seq![a] + rest)[0] == a);
    assert((seq![a] + rest).skip(1) =~= rest);
}

/// The outbound half of a delivery run: make the ship ready (dock,
/// refuel), travel to the delivery waypoint, dock there, and post the
/// contract delivery.
pub open spec fn spec_deliver_outbound_plan(
    target: Seq<char>,
    contract_id: Seq<char>,
    item: ItemView,
) -> Seq<ShipActionView> {
    seq![
        ShipActionView::Dock,
        ShipActionView::Refuel,
        ShipActionView::NavigateTo { waypoint: target },
        ShipActionView::Dock,
        ShipActionView::DeliverCargo {
            contract_id,
            trade_symbol: item.symbol,
            units: item.units,
        },
    ]
}

/// Builds the outbound half of a delivery run for one stack.
pub fn deliver_outbound_plan(target: &str, contract_id: &str, item: &Item) -> (plan: Vec<
    ShipAction,
>)
    ensures
        plan_view(plan@) == spec_deliver_outbound_plan(target@, contract_id@, item@),
{
    let mut plan: Vec<ShipAction> = Vec::new();
    plan.push(ShipAction::Dock);
    plan.push(ShipAction::Refuel);
    plan.push(ShipAction::NavigateTo { waypoint: target.to_owned() });
    plan.push(ShipAction::Dock);
    plan.push(
        ShipAction::DeliverCargo {
            contract_id: contract_id.to_owned(),
            trade_symbol: item.symbol.clone(),
            units: item.units,
        },
    );
    proof {
        assert(plan_view(plan@) =~= spec_deliver_outbound_plan(target@, contract_id@, item@));
    }
    plan
}

/// The return half of a delivery run: travel back to the departure
/// waypoint the outbound navigation reported, and dock there.
pub open spec fn spec_deliver_return_plan(departure: Seq<char>) -> Seq<ShipActionView> {
    seq![
        ShipActionView::Dock,
        ShipActionView::Refuel,
        ShipActionView::NavigateTo { waypoint: departure },
        ShipActionView::Dock,
    ]
}

/// Builds the return half of a delivery run.
pub fn deliver_return_plan(departure: &str) -> (plan: Vec<ShipAction>)
    ensures
        plan_view(plan@) == spec_deliver_return_plan(departure@),
{
    let mut plan: Vec<ShipAction> = Vec::new();
    plan.push(ShipAction::Dock);
    plan.push(ShipAction::Refuel);
    plan.push(ShipAction::NavigateTo { waypoint: departure.to_owned() });
    plan.push(ShipAction::Dock);
    proof {
        assert(plan_view(plan@) =~= spec_deliver_return_plan(departure@));
    }
    plan
}

/// Law: a full delivery run — the outbound plan followed by the return
/// plan toward the waypoint the ship set out from — leaves the ship
/// docked at that original departure waypoint, wherever the run started
/// and whatever was delivered.
pub proof fn lemma_deliver_ends_docked_at_departure(
    site: SiteView,
    target: Seq<char>,
    contract_id: Seq<char>,
    item: ItemView,
)
    ensures
        apply_actions(
            site,
            spec_deliver_outbound_plan(target, contract_id, item) + spec_deliver_return_plan(
                site.waypoint,
            ),
        ) == (SiteView { waypoint: site.waypoint, docked: true }),
{
    let a0 = ShipActionView::Dock;
    let a1 = ShipActionView::Refuel;
    let a2 = ShipActionView::NavigateTo { waypoint: target };
    let a3 = ShipActionView::Dock;
    let a4 = ShipActionView::DeliverCargo {
        contract_id,
        trade_symbol: item.symbol,
        units: item.units,
    };
    let a5 = ShipActionView::Dock;
    let a6 = ShipActionView::Refuel;
    let a7 = ShipActionView::NavigateTo { waypoint: site.waypoint };
    let a8 = ShipActionView::Dock;
    let r8: Seq<ShipActionView> = seq![a8];
    let r7 = seq![a7] + r8;
    let r6 = seq![a6] + r7;
    let r5 = seq![a5] + r6;
    let r4 = seq![a4] + r5;
    let r3 = seq![a3] + r4;
    let r2 = seq![a2] + r3;
    let r1 = seq![a1] + r2;
    let r0 = seq![a0] + r1;
    assert(spec_deliver_outbound_plan(target, contract_id, item) + spec_deliver_return_plan(
        site.waypoint,
    ) =~= r0);
    let s0 = site;
    let s1 = apply_action(s0, a0);
    let s2 = apply_action(s1, a1);
    let s3 = apply_action(s2, a2);
    let s4 = apply_action(s3, a3);
    let s5 = apply_action(s4, a4);
    let s6 = apply_action(s5, a5);
    let s7 = apply_action(s6, a6);
    let s8 = apply_action(s7, a7);
    let s9 = apply_action(s8, a8);
    lemma_apply_cons(s0, a0, r1);
    lemma_apply_cons(s1, a1, r2);
    lemma_apply_cons(s2, a2, r3);
    lemma_apply_cons(s3, a3, r4);
    lemma_apply_cons(s4, a4, r5);
    lemma_apply_cons(s5, a5, r6);
    lemma_apply_cons(s6, a6, r7);
    lemma_apply_cons(s7, a7, r8);
    assert(apply_actions(s8, r8) == apply_actions(s9, Seq::<ShipActionView>::empty())) by {
        lemma_apply_cons(s8, a8, Seq::<ShipActionView>::empty());
        assert(seq![a8] + Seq::<ShipActionView>::empty() =~= r8);
    }
    assert(s9 == SiteView { waypoint: site.waypoint, docked: true });
}

/// Where a ship stands, as the runner tracks it while it performs a
/// plan: the ship's waypoint and whether it is docked there.
pub struct ShipSite {
    pub waypoint: String,
    pub docked: bool,
}

impl View for ShipSite {
    type V = SiteView;

    open spec fn view(&self) -> SiteView {
        SiteView { waypoint: self.waypoint@, docked: self.docked }
    }
}

/// Tracks what one action does to the ship's whereabouts.
pub fn apply_site_action(site: ShipSite, a: &ShipAction) -> (r: ShipSite)
    ensures
        r@ == apply_action(site@, a@),
{
    match a {
        ShipAction::NavigateTo { waypoint } => ShipSite {
            waypoint: waypoint.clone(),
            docked: false,
        },
        ShipAction::Dock => ShipSite { waypoint: site.waypoint, docked: true },
        _ => site,
    }
}

/// Tracks where a ship ends after performing a whole plan in order.
pub fn run_plan(site: ShipSite, plan: &Vec<ShipAction>) -> (r: ShipSite)
    ensures
        r@ == apply_actions(site@, plan_view(plan@)),
{
    let ghost full = plan_view(plan@);
    let n = plan.len();
    let mut cur = site;
    proof {
        assert(full.skip(0) =~= full);
    }
    let mut i: usize = 0;
    while i < n
        invariant
            0 <= i <= n,
            n == plan@.len(),
            full == plan_view(plan@),
            apply_actions(site@, full) == apply_actions(cur@, full.skip(i as int)),
        decreases n - i,
    {
        proof {
            assert(full.skip(i as int)[0] == full[i as int]);
            assert(full[i as int] == plan@[i as int]@);
            assert(full.skip(i as int).skip(1) =~= full.skip(i as int + 1));
        }
        cur = apply_site_action(cur, &plan[i]);
        i += 1;
    }
    proof {
        assert(full.skip(n as int) =~= Seq::<ShipActionView>::empty());
    }
    cur
}

/// The sell phase over an inventory: for each stack in its original
/// order, a sell request where the selling policy allows one, and the
/// fixed pacing pause after every stack, sold or kept.
pub open spec fn spec_sell_plan(inv: Seq<ItemView>) -> Seq<ShipActionView>
    decreases inv.len(),
{
    if inv.len() == 0 {
        Seq::empty()
    } else {
        let head = if inv[0].symbol != reserved_symbol() && inv[0].symbol
            != contract_material_symbol() {
            seq![
                ShipActionView::SellItem { symbol: inv[0].symbol, units: inv[0].units },
                ShipActionView::Pause { seconds: SELL_PACING_SECONDS },
            ]
        } else {
            seq![ShipActionView::Pause { seconds: SELL_PACING_SECONDS }]
        };
        head + spec_sell_plan(inv.skip(1))
    }
}

/// Builds the sell phase of one cycle from a cargo snapshot.
pub fn sell_plan(cargo: &Cargo) -> (plan: Vec<ShipAction>)
    ensures
        plan_view(plan@) == spec_sell_plan(cargo@.inventory),
{
    let mut plan: Vec<ShipAction> = Vec::new();
    let n = cargo.inventory.len();
    proof {
        assert(cargo@.inventory.skip(0) =~= cargo@.inventory);
        assert(plan_view(plan@) =~= Seq::<ShipActionView>::empty());
    }
    let mut i: usize = 0;
    while i < n
        invariant
            0 <= i <= n,
            n == cargo.inventory.len(),
            n == cargo@.inventory.len(),
            spec_sell_plan(cargo@.inventory) == plan_view(plan@) + spec_sell_plan(
                cargo@.inventory.skip(i as int),
            ),
        decreases n - i,
    {
        let ghost prev = plan@;
        let ghost tail = cargo@.inventory.skip(i as int);
        proof {
            assert(cargo@.inventory[i as int] == cargo.inventory@[i as int]@);
            assert(tail[0] == cargo@.inventory[i as int]);
            assert(tail.skip(1) =~= cargo@.inventory.skip(i as int + 1));
        }
        let d = sell_decision(&cargo.inventory[i]);
        match d {
            SellDecision::Sell { symbol, units } => {
                plan.push(ShipAction::SellItem { symbol, units });
                plan.push(ShipAction::Pause { seconds: SELL_PACING_SECONDS });
                proof {
                    let head = seq![
                        ShipActionView::SellItem { symbol: tail[0].symbol, units: tail[0].units },
                        ShipActionView::Pause { seconds: SELL_PACING_SECONDS },
                    ];
                    assert(plan_view(plan@) =~= plan_view(prev) + head);
                    assert(spec_sell_plan(tail) == head + spec_sell_plan(tail.skip(1)));
                    assert((plan_view(prev) + head) + spec_sell_plan(tail.skip(1)) =~= plan_view(
                        prev,
                    ) + (head + spec_sell_plan(tail.skip(1))));
                }
            },
            _ => {
                plan.push(ShipAction::Pause { seconds: SELL_PACING_SECONDS });
                proof {
                    let head = seq![ShipActionView::Pause { seconds: SELL_PACING_SECONDS }];
                    assert(plan_view(plan@) =~= plan_view(prev) + head);
                    assert(spec_sell_plan(tail) == head + spec_sell_plan(tail.skip(1)));
                    assert((plan_view(prev) + head) + spec_sell_plan(tail.skip(1)) =~= plan_view(
                        prev,
                    ) + (head + spec_sell_plan(tail.skip(1))));
                }
            },
        }
        i += 1;
    }
    proof {
        assert(cargo@.inventory.skip(n as int) =~= Seq::<ItemView>::empty());
        assert(plan_view(plan@) + spec_sell_plan(Seq::<ItemView>::empty()) =~= plan_view(plan@));
    }
    plan
}

/// Law: the sell phase never contains a sell request for the reserved
/// resource or for the contract material.
pub proof fn lemma_sell_plan_spares_reserved(inv: Seq<ItemView>, i: int)
    requires
        0 <= i < spec_sell_plan(inv).len(),
    ensures
        spec_sell_plan(inv)[i] matches ShipActionView::SellItem { symbol, .. } ==> symbol
            != reserved_symbol() && symbol != contract_material_symbol(),
    decreases inv.len(),
{
    if inv.len() > 0 {
        let head = if inv[0].symbol != reserved_symbol() && inv[0].symbol
            != contract_material_symbol() {
            seq![
                ShipActionView::SellItem { symbol: inv[0].symbol, units: inv[0].units },
                ShipActionView::Pause { seconds: SELL_PACING_SECONDS },
            ]
        } else {
            seq![ShipActionView::Pause { seconds: SELL_PACING_SECONDS }]
        };
        if i >= head.len() {
            lemma_sell_plan_spares_reserved(inv.skip(1), i - head.len());
        }
    }
}

} // verus!
