//! Period-ending dates as plain (year, month, day) values, parsed from
//! provider date strings.
use vstd::prelude::*;
use chrono::Datelike;

verus! {

/// A calendar date held as plain year, month and day numbers.
#[derive(Clone, Copy, PartialEq, Eq, Structural, Debug)]
pub struct CalendarDate {
    pub year: i32,
    pub month: u8,
    pub day: u8,
}

/// A structurally valid calendar date: month and day in range.
pub open spec fn date_valid(d: CalendarDate) -> bool {
    1 <= d.month <= 12 && 1 <= d.day <= 31
}

/// What the `%Y-%m-%d` date parser yields on a string: the (year, month, day)
/// triple of the date it denotes, or nothing when the string is malformed.
/// The outcome depends on the characters alone.
pub uninterp spec fn date_parse(s: Seq<char>) -> Option<(int, int, int)>;

/// Relies on chrono::NaiveDate::parse_from_str with format `%Y-%m-%d`, and on
/// the chrono::Datelike accessors year, month and day: the parse outcome
/// depends on the input characters alone, and a parsed date carries a month
/// in 1..=12 and a day in 1..=31.
#[verifier::external_body]
pub(crate) fn convert_period_ending_str(s: &str) -> (r: Option<CalendarDate>)
    ensures
        r is Some <==> date_parse(s@) is Some,
        r is Some ==> r->Some_0.year as int == date_parse(s@)->Some_0.0,
        r is Some ==> r->Some_0.month as int == date_parse(s@)->Some_0.1,
        r is Some ==> r->Some_0.day as int == date_parse(s@)->Some_0.2,
        r is Some ==> date_valid(r->Some_0),
{
    match chrono::NaiveDate::parse_from_str(s, "%Y-%m-%d") {
        Ok(d) => Some(
            CalendarDate { year: d.year(), month: d.month() as u8, day: d.day() as u8 },
        ),
        Err(_) => None,
    }
}

} // verus!
