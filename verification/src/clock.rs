//! The wall clock: the one ambient input of a scan cycle, read at its
//! decision points and handed to the pure logic as plain values.

use vstd::prelude::*;
use crate::calendar::Date;

verus! {

/// A reading of the local clock: the calendar date and the second of the
/// day, the two projections the pipeline decides on.
#[derive(Clone, Copy, Debug)]
pub struct Moment {
    pub today: Date,
    pub second_of_day: u32,
}

/// Relies on chrono::Local::now with Datelike and Timelike: the local date
/// is a real calendar date, and the seconds past midnight are at most
/// 86399.
#[verifier::external_body]
fn read_clock() -> (m: Moment)
    ensures
        m.today.wf(),
        m.second_of_day <= 86399,
{
    let now = chrono::Local::now();
    Moment {
        today: Date {
            year: chrono::Datelike::year(&now) as i64,
            month: chrono::Datelike::month(&now),
            day: chrono::Datelike::day(&now),
        },
        second_of_day: chrono::Timelike::num_seconds_from_midnight(&now),
    }
}

/// Relies on chrono::DateTime::to_rfc3339 for the audit timestamp text.
#[verifier::external_body]
pub(crate) fn now_rfc3339() -> (r: String)
    ensures
        r@.len() > 0,
{
    chrono::Local::now().to_rfc3339()
}

/// The moment a cycle evaluates against: a real calendar date and a time
/// of day within the 86400 seconds.
pub fn cycle_moment() -> (m: Moment)
    ensures
        m.today.wf(),
        m.second_of_day <= 86399,
{
    read_clock()
}

} // verus!
