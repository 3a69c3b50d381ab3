//! Timestamps as the local clock shows them.

use vstd::prelude::*;
use chrono::{DateTime, Local};

verus! {

/// The earliest instant that can be shown, in milliseconds since the epoch:
/// the first millisecond of the year -262143.
pub const MIN_TIMESTAMP_MS: i64 = -8_334_601_228_800_000;

/// The latest instant that can be shown, in milliseconds since the epoch:
/// the last millisecond of the year 262142.
pub const MAX_TIMESTAMP_MS: i64 = 8_210_266_876_799_999;

/// Whether a number of milliseconds since the epoch names an instant that
/// the calendar reaches.
pub open spec fn timestamp_in_range(ms: int) -> bool {
    MIN_TIMESTAMP_MS <= ms <= MAX_TIMESTAMP_MS
}

/// Whether `c` is one of the ten decimal digits.
pub open spec fn is_digit(c: char) -> bool {
    '0' <= c <= '9'
}

/// Whether a text has the shape of a time of day: two digits each for hour,
/// minute and second, with a colon between them.
pub open spec fn is_clock_text(text: Seq<char>) -> bool {
    &&& text.len() == 8
    &&& is_digit(text[0])
    &&& is_digit(text[1])
    &&& text[2] == ':'
    &&& is_digit(text[3])
    &&& is_digit(text[4])
    &&& text[5] == ':'
    &&& is_digit(text[6])
    &&& is_digit(text[7])
}

/// The time of day of an instant on the local clock, as `HH:MM:SS`.
///
/// Calls chrono: `DateTime::from_timestamp_millis`, which gives no instant
/// outside the calendar's years, then `with_timezone` with the machine's
/// zone and `format`. Trusted: that there is a text exactly for the instants
/// in range, and that the text has eight characters, digits but for the two
/// colons. Which digits they are depends on the machine's time zone, and
/// nothing is said of them.
#[verifier::external_body]
pub(crate) fn local_time_of_day(ms: i64) -> (text: Option<String>)
    ensures
        text.is_some() <==> timestamp_in_range(ms as int),
        text matches Some(t) ==> is_clock_text(t@),
{
    match DateTime::from_timestamp_millis(ms) {
        Some(instant) => Some(instant.with_timezone(&Local).format("%H:%M:%S").to_string()),
        None => None,
    }
}

/// Date, time and offset of an instant on the local clock.
///
/// Calls chrono: `DateTime::from_timestamp_millis`, then `with_timezone`
/// with the machine's zone and the `Display` of the result. Trusted: that
/// there is a text exactly for the instants in range. The text depends on
/// the machine's time zone, and nothing is said of it.
#[verifier::external_body]
pub(crate) fn local_date_time(ms: i64) -> (text: Option<String>)
    ensures
        text.is_some() <==> timestamp_in_range(ms as int),
{
    match DateTime::from_timestamp_millis(ms) {
        Some(instant) => Some(instant.with_timezone(&Local).to_string()),
        None => None,
    }
}

} // verus!
