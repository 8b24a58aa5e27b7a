//! Rendering of dates and times as text, done by `chrono`.
//!
//! Each function here builds the `chrono` value from its components and
//! formats it with a `strftime` layout. What `chrono` prints is not
//! restated: it is named, and the callers' contracts speak of that name.

use crate::db::wire::{WireDate, WireDateTime, WireTime};
use std::fmt::Write;
use vstd::prelude::*;

verus! {

/// Layout of a timestamp without time zone.
pub const DATETIME_LAYOUT: &'static str = "%Y-%m-%d %H:%M:%S";

/// Layout of a timestamp in UTC, with the zone's name.
pub const UTC_DATETIME_LAYOUT: &'static str = "%Y-%m-%d %H:%M:%S %Z";

/// Layout of a date.
pub const DATE_LAYOUT: &'static str = "%Y-%m-%d";

/// Layout of a time of day.
pub const TIME_LAYOUT: &'static str = "%H:%M:%S";

/// What `chrono` prints for the date of the given year, month and day
/// under a layout; `None` where the components are no date that `chrono`
/// holds or the layout is not one it can print a date with.
pub uninterp spec fn date_text(year: int, month: int, day: int, layout: Seq<char>) -> Option<
    Seq<char>,
>;

/// What `chrono` prints for the time of day of the given hour, minute,
/// second and nanosecond under a layout; `None` where the components are no
/// time that `chrono` holds or the layout is not one it can print a time
/// with.
pub uninterp spec fn time_text(
    hour: int,
    minute: int,
    second: int,
    nanosecond: int,
    layout: Seq<char>,
) -> Option<Seq<char>>;

/// What `chrono` prints for a date and time without zone under a layout;
/// `None` where the components are no date and time that `chrono` holds or
/// the layout is not one it can print them with.
pub uninterp spec fn datetime_text(
    year: int,
    month: int,
    day: int,
    hour: int,
    minute: int,
    second: int,
    nanosecond: int,
    layout: Seq<char>,
) -> Option<Seq<char>>;

/// What `chrono` prints for a date and time in UTC under a layout; `None`
/// where the components are no date and time that `chrono` holds or the
/// layout is not one it can print them with.
pub uninterp spec fn utc_datetime_text(
    year: int,
    month: int,
    day: int,
    hour: int,
    minute: int,
    second: int,
    nanosecond: int,
    layout: Seq<char>,
) -> Option<Seq<char>>;

/// The text of a date under a layout.
pub open spec fn rendered_date(date: WireDate, layout: Seq<char>) -> Option<Seq<char>> {
    date_text(date.year as int, date.month as int, date.day as int, layout)
}

/// The text of a time of day under a layout.
pub open spec fn rendered_time(time: WireTime, layout: Seq<char>) -> Option<Seq<char>> {
    time_text(
        time.hour as int,
        time.minute as int,
        time.second as int,
        time.nanosecond as int,
        layout,
    )
}

/// The text of a date and time without zone under a layout.
pub open spec fn rendered_datetime(moment: WireDateTime, layout: Seq<char>) -> Option<Seq<char>> {
    datetime_text(
        moment.date.year as int,
        moment.date.month as int,
        moment.date.day as int,
        moment.time.hour as int,
        moment.time.minute as int,
        moment.time.second as int,
        moment.time.nanosecond as int,
        layout,
    )
}

/// The text of a date and time in UTC under a layout.
pub open spec fn rendered_utc_datetime(moment: WireDateTime, layout: Seq<char>) -> Option<
    Seq<char>,
> {
    utc_datetime_text(
        moment.date.year as int,
        moment.date.month as int,
        moment.date.day as int,
        moment.time.hour as int,
        moment.time.minute as int,
        moment.time.second as int,
        moment.time.nanosecond as int,
        layout,
    )
}

/// Whether an optional string has the given optional text.
pub open spec fn text_is(found: Option<String>, expected: Option<Seq<char>>) -> bool {
    match found {
        Some(s) => expected == Some(s@),
        None => expected is None,
    }
}

/// Calls `chrono::NaiveDate::from_ymd_opt` and `chrono::NaiveDate::format`.
///
/// Trusted: the result is `chrono`'s text for the date under the layout, a
/// function of the components and the layout alone; `None` when `chrono`
/// rejects the components or cannot print under the layout.
#[verifier::external_body]
pub(crate) fn format_date(date: WireDate, layout: &str) -> (text: Option<String>)
    ensures
        text_is(
            text,
            date_text(date.year as int, date.month as int, date.day as int, layout@),
        ),
{
    let day = chrono::NaiveDate::from_ymd_opt(date.year, date.month, date.day)?;
    let mut out = String::new();
    write!(out, "{}", day.format(layout)).ok()?;
    Some(out)
}

/// Calls `chrono::NaiveTime::from_hms_nano_opt` and `chrono::NaiveTime::format`.
///
/// Trusted: the result is `chrono`'s text for the time under the layout, a
/// function of the components and the layout alone; `None` when `chrono`
/// rejects the components or cannot print under the layout.
#[verifier::external_body]
pub(crate) fn format_time(time: WireTime, layout: &str) -> (text: Option<String>)
    ensures
        text_is(
            text,
            time_text(
                time.hour as int,
                time.minute as int,
                time.second as int,
                time.nanosecond as int,
                layout@,
            ),
        ),
{
    let clock = chrono::NaiveTime::from_hms_nano_opt(
        time.hour, time.minute, time.second, time.nanosecond)?;
    let mut out = String::new();
    write!(out, "{}", clock.format(layout)).ok()?;
    Some(out)
}

/// Calls `chrono::NaiveDateTime::new` on a date and a time built as above,
/// and `chrono::NaiveDateTime::format`.
///
/// Trusted: the result is `chrono`'s text for the moment under the layout,
/// a function of the components and the layout alone; `None` when `chrono`
/// rejects the components or cannot print under the layout.
#[verifier::external_body]
pub(crate) fn format_datetime(moment: WireDateTime, layout: &str) -> (text: Option<String>)
    ensures
        text_is(
            text,
            datetime_text(
                moment.date.year as int,
                moment.date.month as int,
                moment.date.day as int,
                moment.time.hour as int,
                moment.time.minute as int,
                moment.time.second as int,
                moment.time.nanosecond as int,
                layout@,
            ),
        ),
{
    let (d, t) = (moment.date, moment.time);
    let day = chrono::NaiveDate::from_ymd_opt(d.year, d.month, d.day)?;
    let clock = chrono::NaiveTime::from_hms_nano_opt(t.hour, t.minute, t.second, t.nanosecond)?;
    let mut out = String::new();
    write!(out, "{}", chrono::NaiveDateTime::new(day, clock).format(layout)).ok()?;
    Some(out)
}

/// Calls `chrono::NaiveDateTime::and_utc` on a moment built as above, and
/// `chrono::DateTime::<Utc>::format`.
///
/// Trusted: the result is `chrono`'s text for the moment in UTC under the
/// layout, a function of the components and the layout alone; `None` when
/// `chrono` rejects the components or cannot print under the layout.
#[verifier::external_body]
pub(crate) fn format_utc_datetime(moment: WireDateTime, layout: &str) -> (text: Option<String>)
    ensures
        text_is(
            text,
            utc_datetime_text(
                moment.date.year as int,
                moment.date.month as int,
                moment.date.day as int,
                moment.time.hour as int,
                moment.time.minute as int,
                moment.time.second as int,
                moment.time.nanosecond as int,
                layout@,
            ),
        ),
{
    let (d, t) = (moment.date, moment.time);
    let day = chrono::NaiveDate::from_ymd_opt(d.year, d.month, d.day)?;
    let clock = chrono::NaiveTime::from_hms_nano_opt(t.hour, t.minute, t.second, t.nanosecond)?;
    let mut out = String::new();
    write!(out, "{}", chrono::NaiveDateTime::new(day, clock).and_utc().format(layout)).ok()?;
    Some(out)
}

} // verus!
