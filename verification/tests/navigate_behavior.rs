use fleet_bot::navigate::nav_transit_wait;
use fleet_bot::navigate::navigation_wait;
use fleet_bot::navigate::navigation_wait_from;
use fleet_bot::types::Cooldown;
use fleet_bot::types::Nav;
use fleet_bot::types::Route;
use fleet_bot::types::WayPoint;

fn waypoint(symbol: &str) -> WayPoint {
    WayPoint {
        symbol: symbol.to_string(),
        system_symbol: "X1-DF55".to_string(),
        x: 0,
        y: 0,
    }
}

#[test]
fn wait_is_the_distance_to_the_arrival() {
    assert_eq!(navigation_wait(120, 0), Some(120));
    assert_eq!(navigation_wait(0, 0), Some(0));
    assert_eq!(navigation_wait(1_000_000, 999_880), Some(120));
}

#[test]
fn an_arrival_in_the_past_yields_no_wait() {
    assert_eq!(navigation_wait(0, 1), None);
    assert_eq!(navigation_wait(-120, 0), None);
}

#[test]
fn extreme_epochs_do_not_wrap() {
    assert_eq!(navigation_wait(i64::MAX, i64::MIN), Some(u64::MAX));
}

#[test]
fn arrival_two_minutes_ahead_waits_two_minutes() {
    assert_eq!(navigation_wait_from("1970-01-01T00:02:00+00:00", 0), Some(120));
    assert_eq!(navigation_wait_from("1970-01-01T00:02:00Z", 0), Some(120));
}

#[test]
fn offset_timestamps_denote_the_same_instant() {
    assert_eq!(navigation_wait_from("1970-01-01T02:02:00+02:00", 0), Some(120));
}

#[test]
fn unparsable_arrival_yields_no_wait() {
    assert_eq!(navigation_wait_from("not a timestamp", 0), None);
    assert_eq!(navigation_wait_from("", 0), None);
}

#[test]
fn nav_wait_reads_the_route_arrival() {
    let nav = Nav {
        system_symbol: "X1-DF55".to_string(),
        waypoint_symbol: "X1-DF55-20250Z".to_string(),
        route: Route {
            destination: waypoint("X1-DF55-20250Z"),
            departure: waypoint("X1-HOME"),
            arrival: "2020-01-01T00:02:00Z".to_string(),
        },
    };
    // 2020-01-01T00:00:00Z is epoch second 1577836800.
    assert_eq!(nav_transit_wait(&nav, 1_577_836_800), Some(120));
}

#[test]
fn cooldown_wait_is_its_remaining_seconds() {
    let cd = Cooldown {
        ship_symbol: "SOIES-2".to_string(),
        total_seconds: 70,
        remaining_seconds: 42,
        expiration: "2020-01-01T00:01:10Z".to_string(),
    };
    assert_eq!(cd.wait_seconds(), 42);
}
