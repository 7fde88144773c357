use fleet_bot::fleet::cycle_initial_phase;
use fleet_bot::fleet::cycle_next_phase;
use fleet_bot::fleet::fleet_launch_plan;
use fleet_bot::fleet::CyclePhase;
use fleet_bot::logging::Highlight;
use fleet_bot::logging::LogType;

#[test]
fn four_ships_start_staggered_by_tens() {
    let ships = vec![
        "SOIES-1".to_string(),
        "SOIES-2".to_string(),
        "SOIES-3".to_string(),
        "SOIES-4".to_string(),
    ];
    let plans = fleet_launch_plan(&ships);
    assert_eq!(plans.len(), 4);
    for (i, plan) in plans.iter().enumerate() {
        assert_eq!(plan.ship, ships[i]);
        assert_eq!(plan.delay_seconds, (i as u64) * 10);
    }
}

#[test]
fn launching_no_ships_plans_nothing() {
    let plans = fleet_launch_plan(&vec![]);
    assert!(plans.is_empty());
}

#[test]
fn a_cycle_starts_by_extracting() {
    assert_eq!(cycle_initial_phase(), CyclePhase::Extracting);
}

#[test]
fn the_cycle_repeats_in_order() {
    let p0 = cycle_initial_phase();
    let p1 = cycle_next_phase(p0);
    let p2 = cycle_next_phase(p1);
    let p3 = cycle_next_phase(p2);
    let p4 = cycle_next_phase(p3);
    assert_eq!(p1, CyclePhase::FetchingCargo);
    assert_eq!(p2, CyclePhase::Delivering);
    assert_eq!(p3, CyclePhase::Selling);
    assert_eq!(p4, CyclePhase::Extracting);
}

#[test]
fn log_tags_have_fixed_labels() {
    assert_eq!(LogType::Extract.label(), "EXTRACT");
    assert_eq!(LogType::Sell.label(), "SELL");
    assert_eq!(LogType::Navigate.label(), "NAVIGATE");
    assert_eq!(LogType::Deliver.label(), "DELIVER");
    assert_eq!(LogType::Dock.label(), "DOCK");
}

#[test]
fn log_tags_have_fixed_highlights() {
    assert_eq!(LogType::Extract.colored(), Highlight::OnMagenta);
    assert_eq!(LogType::Sell.colored(), Highlight::OnGreen);
    assert_eq!(LogType::Navigate.colored(), Highlight::OnBlue);
    assert_eq!(LogType::Deliver.colored(), Highlight::OnRed);
    assert_eq!(LogType::Dock.colored(), Highlight::OnYellow);
}
