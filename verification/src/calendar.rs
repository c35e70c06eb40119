//! UTC calendar conversion for Unix timestamps, and the rendering of the
//! date (`"{day} {MonthName}"`) and time (`"{hour}:{minute}"`) fields.
//!
//! The conversion itself is done by chrono, behind trusted wrappers; the
//! rendering on top of it is verified. Everything here is a function of
//! the timestamp alone: no timezone, locale or environment enters.

use crate::digits::{spec_decimal, u64_to_string};
use chrono::Datelike;
use chrono::TimeZone;
use chrono::Timelike;
use vstd::prelude::*;

verus! {

/// Calendar fields of one UTC instant.
pub struct CalendarParts {
    pub year: u32,
    pub month: u32,
    pub day: u32,
    pub hour: u32,
    pub minute: u32,
}

/// The `(year, month, day)` of the proleptic Gregorian calendar, in UTC,
/// for a given count of whole days since 1970-01-01.
pub uninterp spec fn civil_date_of_day(days: int) -> (int, int, int);

/// The last second of year 9999 (`9999-12-31T23:59:59Z`). Timestamps up
/// to this bound are comfortably inside the range chrono supports, which
/// reaches hundreds of thousands of years further.
pub const MAX_TIMESTAMP_SECS: u64 = 253402300799;

/// Relies on chrono's `Utc.timestamp_opt` with the `Datelike` and
/// `Timelike` accessors: a nonnegative in-range second count since the
/// Unix epoch resolves to a single UTC calendar instant, whose
/// time-of-day fields are plain quotients of the second count and whose
/// date fields depend only on the day count.
#[verifier::external_body]
fn utc_calendar(secs: u64) -> (r: Option<CalendarParts>)
    ensures
        secs <= MAX_TIMESTAMP_SECS ==> r is Some,
        r matches Some(p) ==> {
            &&& 1 <= p.month <= 12
            &&& 1 <= p.day <= 31
            &&& p.hour == (secs / 3600) % 24
            &&& p.minute == (secs / 60) % 60
            &&& (p.year as int, p.month as int, p.day as int) == civil_date_of_day(
                secs as int / 86400,
            )
        },
{
    let signed = match i64::try_from(secs) {
        Ok(v) => v,
        Err(_) => return None,
    };
    match chrono::Utc.timestamp_opt(signed, 0) {
        chrono::MappedLocalTime::Single(dt) => Some(CalendarParts {
            year: dt.year() as u32,
            month: dt.month(),
            day: dt.day(),
            hour: dt.hour(),
            minute: dt.minute(),
        }),
        _ => None,
    }
}

/// The full English name of a calendar month, `1` being January. Months
/// outside `1..=12` have no name and render as the empty string.
pub open spec fn spec_month_name(m: int) -> Seq<char> {
    if m == 1 {
        "January"@
    } else if m == 2 {
        "February"@
    } else if m == 3 {
        "March"@
    } else if m == 4 {
        "April"@
    } else if m == 5 {
        "May"@
    } else if m == 6 {
        "June"@
    } else if m == 7 {
        "July"@
    } else if m == 8 {
        "August"@
    } else if m == 9 {
        "September"@
    } else if m == 10 {
        "October"@
    } else if m == 11 {
        "November"@
    } else if m == 12 {
        "December"@
    } else {
        Seq::empty()
    }
}

/// Relies on chrono's `Month::try_from` and `Month::name`: month numbers
/// 1 through 12 map to the full English month names.
#[verifier::external_body]
fn month_name(m: u32) -> (r: &'static str)
    requires
        1 <= m <= 12,
    ensures
        r@ == spec_month_name(m as int),
{
    match chrono::Month::try_from(m as u8) {
        Ok(month) => month.name(),
        Err(_) => "",
    }
}

/// The rendered date field: unpadded day of month, a space, and the full
/// English month name.
pub open spec fn spec_date_string(secs: int) -> Seq<char> {
    let (year, month, day) = civil_date_of_day(secs / 86400);
    spec_decimal(day) + seq![' '] + spec_month_name(month)
}

/// The rendered time field: unpadded hour, a colon, and unpadded minute.
pub open spec fn spec_time_string(secs: int) -> Seq<char> {
    spec_decimal((secs / 3600) % 24) + seq![':'] + spec_decimal((secs / 60) % 60)
}

/// A timestamp whose hour and minute are both below ten renders as
/// exactly three characters — digit, colon, digit — with no zero-padding
/// anywhere: nine past three minutes is `"9:3"`, never `"09:03"`.
pub proof fn lemma_time_unpadded(secs: int)
    requires
        0 <= secs,
        (secs / 3600) % 24 < 10,
        (secs / 60) % 60 < 10,
    ensures
        spec_time_string(secs) =~= seq![
            crate::digits::spec_digit_char((secs / 3600) % 24),
            ':',
            crate::digits::spec_digit_char((secs / 60) % 60),
        ],
        spec_time_string(secs).len() == 3,
{
    crate::digits::lemma_single_digit_unpadded((secs / 3600) % 24);
    crate::digits::lemma_single_digit_unpadded((secs / 60) % 60);
}

/// Renders the date and time fields for a modification timestamp.
pub fn timestamp_strings(secs: u64) -> (r: (String, String))
    requires
        secs <= MAX_TIMESTAMP_SECS,
    ensures
        r.0@ == spec_date_string(secs as int),
        r.1@ == spec_time_string(secs as int),
{
    let parts = utc_calendar(secs).unwrap();
    let mut date = u64_to_string(parts.day as u64);
    date.append(" ");
    date.append(month_name(parts.month));
    let mut time = u64_to_string(parts.hour as u64);
    time.append(":");
    time.append(u64_to_string(parts.minute as u64).as_str());
    proof {
        reveal_strlit(" ");
        reveal_strlit(":");
        assert(" "@ =~= seq![' ']);
        assert(":"@ =~= seq![':']);
        assert(date@ =~= spec_date_string(secs as int));
        assert(time@ =~= spec_time_string(secs as int));
    }
    (date, time)
}

} // verus!
