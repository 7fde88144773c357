use fleet_bot::mission::deliver_outbound_plan;
use fleet_bot::mission::deliver_return_plan;
use fleet_bot::mission::run_plan;
use fleet_bot::mission::sell_plan;
use fleet_bot::mission::ShipAction;
use fleet_bot::mission::ShipSite;
use fleet_bot::types::Cargo;
use fleet_bot::types::Item;

fn item(symbol: &str, units: i8) -> Item {
    Item { symbol: symbol.to_string(), units }
}

#[test]
fn sell_phase_sells_the_sellable_and_paces_every_stack() {
    let cargo = Cargo::new(
        40,
        13,
        vec![item("ANTIMATTER", 1), item("IRON_ORE", 5), item("ALUMINUM_ORE", 7)],
    )
    .unwrap();
    let plan = sell_plan(&cargo);
    assert_eq!(
        plan,
        vec![
            ShipAction::Pause { seconds: 2 },
            ShipAction::SellItem { symbol: "IRON_ORE".to_string(), units: 5 },
            ShipAction::Pause { seconds: 2 },
            ShipAction::Pause { seconds: 2 },
        ]
    );
}

#[test]
fn sell_phase_of_empty_inventory_is_empty() {
    let cargo = Cargo::new(40, 0, vec![]).unwrap();
    assert!(sell_plan(&cargo).is_empty());
}

#[test]
fn outbound_plan_travels_docks_and_delivers() {
    let plan = deliver_outbound_plan("X1-DF55-20250Z", "CONTRACT-1", &item("ALUMINUM_ORE", 30));
    assert_eq!(
        plan,
        vec![
            ShipAction::Dock,
            ShipAction::Refuel,
            ShipAction::NavigateTo { waypoint: "X1-DF55-20250Z".to_string() },
            ShipAction::Dock,
            ShipAction::DeliverCargo {
                contract_id: "CONTRACT-1".to_string(),
                trade_symbol: "ALUMINUM_ORE".to_string(),
                units: 30,
            },
        ]
    );
}

#[test]
fn return_plan_travels_back_and_docks() {
    let plan = deliver_return_plan("X1-HOME");
    assert_eq!(
        plan,
        vec![
            ShipAction::Dock,
            ShipAction::Refuel,
            ShipAction::NavigateTo { waypoint: "X1-HOME".to_string() },
            ShipAction::Dock,
        ]
    );
}

#[test]
fn delivery_run_ends_docked_at_the_departure_waypoint() {
    let start = ShipSite { waypoint: "X1-HOME".to_string(), docked: true };
    let mut plan = deliver_outbound_plan("X1-DF55-20250Z", "CONTRACT-1", &item("ALUMINUM_ORE", 30));
    plan.extend(deliver_return_plan("X1-HOME"));
    let end = run_plan(start, &plan);
    assert_eq!(end.waypoint, "X1-HOME");
    assert!(end.docked);
}

#[test]
fn outbound_plan_ends_docked_at_the_delivery_waypoint() {
    let start = ShipSite { waypoint: "X1-HOME".to_string(), docked: false };
    let plan = deliver_outbound_plan("X1-DF55-20250Z", "CONTRACT-1", &item("ALUMINUM_ORE", 30));
    let end = run_plan(start, &plan);
    assert_eq!(end.waypoint, "X1-DF55-20250Z");
    assert!(end.docked);
}
