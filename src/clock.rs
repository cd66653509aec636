//! The local wall-clock time of day.

use vstd::prelude::*;
use crate::time_of_day::{TimeOfDay, valid_hms};

verus! {

/// Relies on time::OffsetDateTime::now_local for the current time in the local
/// offset (an error when the offset cannot be determined), and on its `hour`,
/// `minute` and `second`, documented to lie in `0..24`, `0..60` and `0..60`.
#[verifier::external_body]
fn local_hms() -> (r: Option<(u8, u8, u8)>)
    ensures
        r matches Some((h, m, s)) ==> valid_hms(h as int, m as int, s as int),
{
    match time::OffsetDateTime::now_local() {
        Ok(now) => Some((now.hour(), now.minute(), now.second())),
        Err(_) => None,
    }
}

/// The current local time of day, or `None` when the local offset is unknown.
pub fn local_time_of_day() -> (r: Option<TimeOfDay>)
    ensures
        r matches Some(t) ==> t.wf(),
{
    match local_hms() {
        Some((h, m, s)) => TimeOfDay::from_hms(h, m, s),
        None => None,
    }
}

} // verus!
