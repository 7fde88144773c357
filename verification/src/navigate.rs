//! The transit wait of a navigation command: the service answers a
//! navigation request with a route whose arrival is an RFC 3339
//! timestamp, and the ship's loop must suspend until that instant. The
//! wait is the difference between the arrival's epoch second and the
//! caller's current epoch second. An arrival that lies in the past (the
//! service never promises one, but clock skew can produce one) yields no
//! wait value rather than a made-up duration, so the caller sees the
//! case explicitly.

use vstd::prelude::*;

use crate::types::Nav;

verus! {

/// The epoch second an RFC 3339 date-and-time text denotes, or nothing
/// where the text is not a valid RFC 3339 date-and-time. The value is a
/// function of the text alone.
pub uninterp spec fn rfc3339_epoch(s: Seq<char>) -> Option<i64>;

/// Relies on `chrono::DateTime::parse_from_rfc3339` and
/// `chrono::DateTime::timestamp`: the first parses the text into an
/// instant reading nothing but the text, and the second returns that
/// instant's non-leap epoch second; both compute from their arguments
/// alone.
#[verifier::external_body]
pub(crate) fn parse_rfc3339_epoch(s: &str) -> (r: Option<i64>)
    ensures
        r == rfc3339_epoch(s@),
{
    match chrono::DateTime::parse_from_rfc3339(s) {
        Ok(dt) => Some(dt.timestamp()),
        Err(_) => None,
    }
}

/// The wait until an arrival: `arrival - now` seconds, and nothing when
/// the arrival lies before `now`.
pub open spec fn spec_navigation_wait(arrival: int, now: int) -> Option<u64> {
    if now <= arrival {
        Some((arrival - now) as u64)
    } else {
        None
    }
}

/// How many seconds lie between `now_epoch` and `arrival_epoch`; nothing
/// when the arrival is already past.
pub fn navigation_wait(arrival_epoch: i64, now_epoch: i64) -> (w: Option<u64>)
    ensures
        w == spec_navigation_wait(arrival_epoch as int, now_epoch as int),
{
    if now_epoch <= arrival_epoch {
        let d: i128 = arrival_epoch as i128 - now_epoch as i128;
        proof {
            assert(0 <= d <= u64::MAX);
        }
        Some(d as u64)
    } else {
        None
    }
}

/// Parses the arrival timestamp of a navigation response and computes
/// the transit wait from `now_epoch`: nothing when the text does not
/// parse as RFC 3339 or the arrival lies in the past.
pub fn navigation_wait_from(arrival: &str, now_epoch: i64) -> (w: Option<u64>)
    ensures
        w == match rfc3339_epoch(arrival@) {
            Some(a) => spec_navigation_wait(a as int, now_epoch as int),
            None => None::<u64>,
        },
{
    match parse_rfc3339_epoch(arrival) {
        Some(a) => navigation_wait(a, now_epoch),
        None => None,
    }
}

/// The transit wait of a navigation result, read from its route's
/// arrival timestamp.
pub fn nav_transit_wait(nav: &Nav, now_epoch: i64) -> (w: Option<u64>)
    ensures
        w == match rfc3339_epoch(nav.route.arrival@) {
            Some(a) => spec_navigation_wait(a as int, now_epoch as int),
            None => None::<u64>,
        },
{
    navigation_wait_from(nav.route.arrival.as_str(), now_epoch)
}

} // verus!
