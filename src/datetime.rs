//! Calendar timestamps read from spreadsheet cells.
//!
//! Expense sheets are filled in by hand, so their timestamps are tried
//! against an ordered list of patterns and the first that matches wins.
//! Reservation sheets keep one fixed month/day/year pattern.

use chrono::{Datelike, Timelike};
use vstd::prelude::*;

verus! {

/// A calendar date and wall-clock time, with no time zone.
#[derive(Debug, Clone, Copy, PartialEq, Eq, Structural)]
pub struct DateTime {
    pub year: i32,
    pub month: u32,
    pub day: u32,
    pub hour: u32,
    pub minute: u32,
    pub second: u32,
    pub nanosecond: u32,
}

/// What chrono's `NaiveDateTime::parse_from_str` reads from `text` under `pattern`.
pub uninterp spec fn chrono_date_time(text: Seq<char>, pattern: Seq<char>) -> Option<DateTime>;

/// What chrono's `NaiveDate::parse_from_str` reads from `text` under `pattern`, at midnight.
pub uninterp spec fn chrono_date(text: Seq<char>, pattern: Seq<char>) -> Option<DateTime>;

/// Relies on chrono's `NaiveDateTime::parse_from_str`; the fields are read
/// back with its `Datelike` and `Timelike` accessors.
#[verifier::external_body]
fn parse_date_time(text: &str, pattern: &str) -> (r: Option<DateTime>)
    ensures
        r == chrono_date_time(text@, pattern@),
{
    let d = chrono::NaiveDateTime::parse_from_str(text, pattern).ok()?;
    Some(DateTime {
        year: d.year(),
        month: d.month(),
        day: d.day(),
        hour: d.hour(),
        minute: d.minute(),
        second: d.second(),
        nanosecond: d.nanosecond(),
    })
}

/// Relies on chrono's `NaiveDate::parse_from_str`, and on its conversion of a
/// date into a `NaiveDateTime` at midnight.
#[verifier::external_body]
fn parse_date(text: &str, pattern: &str) -> (r: Option<DateTime>)
    ensures
        r == chrono_date(text@, pattern@),
        r matches Some(d) ==> d.hour == 0 && d.minute == 0 && d.second == 0 && d.nanosecond == 0,
{
    let d: chrono::NaiveDateTime = chrono::NaiveDate::parse_from_str(text, pattern).ok()?.into();
    Some(DateTime {
        year: d.year(),
        month: d.month(),
        day: d.day(),
        hour: d.hour(),
        minute: d.minute(),
        second: d.second(),
        nanosecond: d.nanosecond(),
    })
}

/// A strftime-style pattern, and whether it carries a time of day.
#[derive(Debug, Clone, Copy)]
pub struct TimestampPattern {
    pub pattern: &'static str,
    pub has_time: bool,
}

/// The patterns tried on an expense timestamp, in order. A two-digit-year
/// US date is tried before a slash-separated year-first date, since chrono
/// reads `%Y` from as few as one digit.
pub open spec fn timestamp_patterns() -> Seq<(Seq<char>, bool)> {
    seq![
        ("%Y-%m-%d %H:%M:%S"@, true),
        ("%Y-%m-%d %-H:%M:%S"@, true),
        ("%Y-%m-%dT%H:%M:%S%#z"@, true),
        ("%Y-%m-%dT%H:%M:%S.%f%#z"@, true),
        ("%Y-%m-%dT%H:%M:%S.%f%:z"@, true),
        ("%Y-%m-%d"@, false),
        ("%m/%d/%y"@, false),
        ("%Y/%m/%d"@, false),
        ("%Y/%m/%d %-H:%M:%S"@, true),
        ("%-m/%d/%Y %-H:%M:%S"@, true),
    ]
}

/// The pattern of reservation dates: month/day/year.
pub const RESERVATION_DATE_PATTERN: &'static str = "%-m/%-d/%Y";

/// The patterns tried on an expense timestamp, in order.
pub fn timestamp_pattern_list() -> (r: Vec<TimestampPattern>)
    ensures
        r@.len() == timestamp_patterns().len(),
        forall|i: int|
            0 <= i < r@.len() ==> (#[trigger] r@[i]).pattern@ == timestamp_patterns()[i].0
                && r@[i].has_time == timestamp_patterns()[i].1,
{
    let r = vec![
        TimestampPattern { pattern: "%Y-%m-%d %H:%M:%S", has_time: true },
        TimestampPattern { pattern: "%Y-%m-%d %-H:%M:%S", has_time: true },
        TimestampPattern { pattern: "%Y-%m-%dT%H:%M:%S%#z", has_time: true },
        TimestampPattern { pattern: "%Y-%m-%dT%H:%M:%S.%f%#z", has_time: true },
        TimestampPattern { pattern: "%Y-%m-%dT%H:%M:%S.%f%:z", has_time: true },
        TimestampPattern { pattern: "%Y-%m-%d", has_time: false },
        TimestampPattern { pattern: "%m/%d/%y", has_time: false },
        TimestampPattern { pattern: "%Y/%m/%d", has_time: false },
        TimestampPattern { pattern: "%Y/%m/%d %-H:%M:%S", has_time: true },
        TimestampPattern { pattern: "%-m/%d/%Y %-H:%M:%S", has_time: true },
    ];
    r
}

/// What one pattern reads from `text`.
pub open spec fn parse_with(text: Seq<char>, p: (Seq<char>, bool)) -> Option<DateTime> {
    if p.1 {
        chrono_date_time(text, p.0)
    } else {
        chrono_date(text, p.0)
    }
}

/// What the first pattern of `patterns` that matches reads from `text`.
pub open spec fn first_match(text: Seq<char>, patterns: Seq<(Seq<char>, bool)>) -> Option<
    DateTime,
>
    decreases patterns.len(),
{
    if patterns.len() == 0 {
        None
    } else {
        match parse_with(text, patterns[0]) {
            Some(d) => Some(d),
            None => first_match(text, patterns.drop_first()),
        }
    }
}

/// The instant an expense timestamp denotes, if any pattern matches it.
pub open spec fn timestamp_of(text: Seq<char>) -> Option<DateTime> {
    first_match(text, timestamp_patterns())
}

/// The date a reservation cell denotes, at midnight.
pub open spec fn sheet_date_of(text: Seq<char>) -> Option<DateTime> {
    chrono_date(text, RESERVATION_DATE_PATTERN@)
}

/// Reads an expense timestamp with the first pattern that matches it.
pub fn try_parse_timestamp(timestamp: &str) -> (r: Option<DateTime>)
    ensures
        r == timestamp_of(timestamp@),
{
    let patterns = timestamp_pattern_list();
    let ghost all = timestamp_patterns();
    let mut i: usize = 0;
    assert(all.skip(0) =~= all);
    while i < patterns.len()
        invariant
            0 <= i <= patterns@.len(),
            patterns@.len() == all.len(),
            all == timestamp_patterns(),
            forall|j: int|
                0 <= j < patterns@.len() ==> (#[trigger] patterns@[j]).pattern@ == all[j].0
                    && patterns@[j].has_time == all[j].1,
            timestamp_of(timestamp@) == first_match(timestamp@, all.skip(i as int)),
        decreases patterns@.len() - i,
    {
        let p = patterns[i];
        assert(all.skip(i as int)[0] == all[i as int]);
        assert(all.skip(i as int).drop_first() =~= all.skip(i + 1));
        let attempt = if p.has_time {
            parse_date_time(timestamp, p.pattern)
        } else {
            parse_date(timestamp, p.pattern)
        };
        if attempt.is_some() {
            return attempt;
        }
        i += 1;
    }
    None
}

/// Reads a reservation date, month/day/year, at midnight.
pub fn parse_sheet_date(text: &str) -> (r: Option<DateTime>)
    ensures
        r == sheet_date_of(text@),
        r matches Some(d) ==> d.hour == 0 && d.minute == 0 && d.second == 0 && d.nanosecond == 0,
{
    parse_date(text, RESERVATION_DATE_PATTERN)
}

} // verus!
