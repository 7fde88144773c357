use fleet_bot::text::str_eq;
use fleet_bot::trading::check_contract_material;
use fleet_bot::trading::contract_material_text;
use fleet_bot::trading::reserved_symbol_text;
use fleet_bot::trading::sell_decision;
use fleet_bot::trading::sell_response_ok;
use fleet_bot::trading::SellDecision;
use fleet_bot::types::Cargo;
use fleet_bot::types::Item;

fn item(symbol: &str, units: i8) -> Item {
    Item { symbol: symbol.to_string(), units }
}

#[test]
fn reserved_resource_is_never_sold() {
    let d = sell_decision(&item("ANTIMATTER", 3));
    assert_eq!(d, SellDecision::KeepReserved);
}

#[test]
fn contract_material_is_kept_for_delivery() {
    let d = sell_decision(&item("ALUMINUM_ORE", 9));
    assert_eq!(d, SellDecision::KeepContractMaterial);
}

#[test]
fn ordinary_stack_is_sold_with_its_own_fields() {
    let d = sell_decision(&item("IRON_ORE", 7));
    assert_eq!(d, SellDecision::Sell { symbol: "IRON_ORE".to_string(), units: 7 });
}

#[test]
fn symbol_texts() {
    assert_eq!(reserved_symbol_text(), "ANTIMATTER");
    assert_eq!(contract_material_text(), "ALUMINUM_ORE");
}

#[test]
fn threshold_met_returns_the_stack() {
    let cargo = Cargo::new(40, 40, vec![item("IRON_ORE", 10), item("ALUMINUM_ORE", 30)]).unwrap();
    let r = check_contract_material(&cargo, "ALUMINUM_ORE");
    assert_eq!(r, Some(item("ALUMINUM_ORE", 30)));
}

#[test]
fn threshold_boundary_is_inclusive() {
    // 30 of 40 is exactly three quarters.
    let cargo = Cargo::new(40, 30, vec![item("ALUMINUM_ORE", 30)]).unwrap();
    assert!(check_contract_material(&cargo, "ALUMINUM_ORE").is_some());
}

#[test]
fn below_threshold_returns_none() {
    let cargo = Cargo::new(40, 29, vec![item("ALUMINUM_ORE", 29)]).unwrap();
    assert_eq!(check_contract_material(&cargo, "ALUMINUM_ORE"), None);
}

#[test]
fn no_matching_stack_returns_none() {
    let cargo = Cargo::new(40, 35, vec![item("IRON_ORE", 35)]).unwrap();
    assert_eq!(check_contract_material(&cargo, "ALUMINUM_ORE"), None);
}

#[test]
fn empty_inventory_returns_none() {
    let cargo = Cargo::new(40, 0, vec![]).unwrap();
    assert_eq!(check_contract_material(&cargo, "ALUMINUM_ORE"), None);
}

#[test]
fn first_matching_stack_decides() {
    // The first matching stack lies below the threshold, so the check
    // returns none even though a later stack would pass it.
    let cargo = Cargo::new(
        40,
        40,
        vec![item("ALUMINUM_ORE", 5), item("ALUMINUM_ORE", 35)],
    )
    .unwrap();
    assert_eq!(check_contract_material(&cargo, "ALUMINUM_ORE"), None);
}

#[test]
fn cargo_snapshot_keeps_its_invariant() {
    let c = Cargo::new(10, 10, vec![item("IRON_ORE", 10)]).unwrap();
    assert!(c.units <= c.capacity);
    assert!(Cargo::new(5, 6, vec![]).is_none());
    assert!(Cargo::new(5, -1, vec![]).is_none());
    assert!(Cargo::new(5, 3, vec![item("IRON_ORE", -2)]).is_none());
}

#[test]
fn sell_response_only_201_reports_a_trade() {
    assert!(sell_response_ok(201));
    assert!(!sell_response_ok(200));
    assert!(!sell_response_ok(400));
    assert!(!sell_response_ok(500));
}

#[test]
fn string_comparison_is_exact() {
    assert!(str_eq("ALUMINUM_ORE", "ALUMINUM_ORE"));
    assert!(!str_eq("ALUMINUM_ORE", "ALUMINUM"));
    assert!(!str_eq("IRON_ORE", "GOLD_ORE"));
    assert!(str_eq("", ""));
}
