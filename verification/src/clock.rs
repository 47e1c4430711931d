//! The timestamp of a run: taken once, when the writer starts, and used in every file name of
//! the run.

use crate::naming::{decimal, zero_padded};
use chrono::Utc;
use vstd::prelude::*;

verus! {

/// UTC, compact and sortable, to the second: year, month, day, `T`, hour, minute, second, `Z`.
pub const TIMESTAMP_PATTERN: &'static str = "%Y%m%dT%H%M%SZ";

/// A year as the pattern writes it: with four digits up to 9999, and with a plus sign and all
/// its digits beyond.
pub open spec fn year_text(year: nat) -> Seq<char> {
    if year <= 9999 {
        zero_padded(year, 4)
    } else {
        seq!['+'] + decimal(year)
    }
}

/// The current time in UTC as a timestamp for file names, in the pattern above.
pub(crate) fn current_timestamp() -> (text: String)
    ensures
        is_timestamp(text@),
{
    utc_now_formatted(TIMESTAMP_PATTERN)
}

/// A date and a time of day as the pattern writes them: the year, then month, day, hour,
/// minute and second with two digits each, `T` between the date and the time, `Z` at the end.
pub open spec fn timestamp_text(
    year: nat,
    month: nat,
    day: nat,
    hour: nat,
    minute: nat,
    second: nat,
) -> Seq<char> {
    year_text(year) + zero_padded(month, 2) + zero_padded(day, 2) + seq!['T'] + zero_padded(
        hour,
        2,
    ) + zero_padded(minute, 2) + zero_padded(second, 2) + seq!['Z']
}

/// The text is some date from 1970 on and some time of day, written in the pattern. Which
/// date and time it is, the clock decides.
pub open spec fn is_timestamp(text: Seq<char>) -> bool {
    exists|year: nat, month: nat, day: nat, hour: nat, minute: nat, second: nat|
        {
            &&& 1970 <= year <= 262143
            &&& 1 <= month <= 12
            &&& 1 <= day <= 31
            &&& hour <= 23
            &&& minute <= 59
            &&& second <= 60
            &&& text == #[trigger] timestamp_text(year, month, day, hour, minute, second)
        }
}

/// Calls `Utc::now` of chrono and formats the time with `DateTime::format`. Which time comes
/// out depends on the clock; whatever it is, it is written as chrono documents `%Y`, `%m`,
/// `%d`, `%H`, `%M` and `%S`, with the ranges given there, and with the `T` and the `Z` of the
/// pattern as they stand. `Utc::now` gives up where the system clock is set before 1970, so
/// no earlier year comes out. The pattern is the one above, which chrono can format.
#[verifier::external_body]
fn utc_now_formatted(pattern: &str) -> (text: String)
    requires
        pattern@ == TIMESTAMP_PATTERN@,
    ensures
        is_timestamp(text@),
{
    Utc::now().format(pattern).to_string()
}

} // verus!
