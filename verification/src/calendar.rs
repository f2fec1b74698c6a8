//! Instants of the UTC calendar, as the `chrono` crate knows them.

use vstd::prelude::*;
use chrono::TimeZone;

verus! {

/// Whether `chrono` has exactly one UTC instant for `secs` whole seconds
/// since the epoch and `nsecs` nanoseconds within that second.
pub uninterp spec fn utc_instant_defined(secs: int, nsecs: int) -> bool;

/// The text of that instant with the pattern `%Y-%m-%d %H:%M:%S`: date and
/// time of day to the second.
pub uninterp spec fn utc_second_text(secs: int, nsecs: int) -> Seq<char>;

/// `chrono::Utc.timestamp_opt(..).single()`: says whether the seconds and
/// nanoseconds resolve to exactly one instant of the UTC calendar.
#[verifier::external_body]
pub(crate) fn utc_instant_exists(secs: i64, nsecs: u32) -> (r: bool)
    ensures
        r == utc_instant_defined(secs as int, nsecs as int),
{
    chrono::Utc.timestamp_opt(secs, nsecs).single().is_some()
}

/// `chrono::DateTime::format` with `%Y-%m-%d %H:%M:%S`, on the instant that
/// `timestamp_opt` gives for the seconds and nanoseconds: the result is that
/// instant's text to the second. The instant has to exist.
#[verifier::external_body]
pub(crate) fn format_utc_second(secs: i64, nsecs: u32) -> (r: String)
    requires
        utc_instant_defined(secs as int, nsecs as int),
    ensures
        r@ == utc_second_text(secs as int, nsecs as int),
{
    chrono::Utc.timestamp_opt(secs, nsecs).unwrap().format("%Y-%m-%d %H:%M:%S").to_string()
}

} // verus!
