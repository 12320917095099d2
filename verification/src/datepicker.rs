//! The rules of a date picker: which days a month's calendar shows, which of
//! them can be picked, how far the time of day can be turned, and where a
//! step lands when only a range of dates is allowed.
//!
//! Dates and times are plain calendar fields ([`DateTime`]). Calendar
//! arithmetic is left to `chrono`: adding a duration, the weekday of a date
//! and the distance between two dates are each one call, whose result the
//! contracts here refer to by name ([`plus_days`], [`plus_seconds`],
//! [`plus_nanoseconds`], [`weekday_of`], [`days_between`]).

use chrono::{Datelike, NaiveDate, TimeDelta, Timelike};
use vstd::prelude::*;

verus! {

/// A calendar date and a time of day, without a time zone.
#[derive(Clone, Copy, Debug, PartialEq, Eq, Structural)]
pub struct DateTime {
    pub year: i32,
    /// The month, from 1.
    pub month: u32,
    /// The day of the month, from 1.
    pub day: u32,
    pub hour: u32,
    pub minute: u32,
    pub second: u32,
    /// The nanosecond within the second; from 1,000,000,000 on within a
    /// leap second.
    pub nano: u32,
}

/// A day of the week.
#[derive(Clone, Copy, Debug, PartialEq, Eq, Structural)]
pub enum Weekday {
    Mon,
    Tue,
    Wed,
    Thu,
    Fri,
    Sat,
    Sun,
}

/// One end of a range of dates.
#[derive(Clone, Copy, Debug, PartialEq, Eq, Structural)]
pub enum Bound {
    /// The range reaches up to the date, and holds it.
    Included(DateTime),
    /// The range reaches up to the date, and does not hold it.
    Excluded(DateTime),
    /// The range has no end on this side.
    Unbounded,
}

/// A range of dates.
#[derive(Clone, Copy, Debug, PartialEq, Eq, Structural)]
pub struct AllowedRange {
    pub start: Bound,
    pub end: Bound,
}

/// What `chrono` gives for `date` and `days` days, or `None` where it gives
/// none: where `date` is no date and time that exists, or the sum is out of
/// its range.
pub uninterp spec fn plus_days(date: DateTime, days: i64) -> Option<DateTime>;

/// What `chrono` gives for `date` and `seconds` seconds, or `None` where it
/// gives none.
pub uninterp spec fn plus_seconds(date: DateTime, seconds: i64) -> Option<DateTime>;

/// What `chrono` gives for `date` and `nanoseconds` nanoseconds, or `None`
/// where it gives none.
pub uninterp spec fn plus_nanoseconds(date: DateTime, nanoseconds: i64) -> Option<DateTime>;

/// The day of the week on which `chrono` has the given day of the given
/// month and year fall, or `None` where it has no such day.
pub uninterp spec fn weekday_of(year: i32, month: u32, day: u32) -> Option<Weekday>;

/// The number of days that `chrono` counts from one date to another, or
/// `None` where it has no such date.
pub uninterp spec fn days_between(
    from_year: i32,
    from_month: u32,
    from_day: u32,
    to_year: i32,
    to_month: u32,
    to_day: u32,
) -> Option<i64>;

/// Adds `days` days to `date` with `chrono`: `NaiveDate::from_ymd_opt` and
/// `and_hms_nano_opt` read the date, `TimeDelta::try_days` makes the
/// duration, `NaiveDateTime::checked_add_signed` adds. The contract claims
/// only that the result is a function of the arguments.
#[verifier::external_body]
fn chrono_plus_days(date: DateTime, days: i64) -> (r: Option<DateTime>)
    ensures
        r == plus_days(date, days),
{
    let at = NaiveDate::from_ymd_opt(date.year, date.month, date.day)?
        .and_hms_nano_opt(date.hour, date.minute, date.second, date.nano)?;
    let sum = at.checked_add_signed(TimeDelta::try_days(days)?)?;
    Some(DateTime {
        year: sum.year(),
        month: sum.month(),
        day: sum.day(),
        hour: sum.hour(),
        minute: sum.minute(),
        second: sum.second(),
        nano: sum.nanosecond(),
    })
}

/// Adds `seconds` seconds to `date` with `chrono`, as [`chrono_plus_days`]
/// adds days, the duration being made by `TimeDelta::try_seconds`. The
/// contract claims only that the result is a function of the arguments.
#[verifier::external_body]
fn chrono_plus_seconds(date: DateTime, seconds: i64) -> (r: Option<DateTime>)
    ensures
        r == plus_seconds(date, seconds),
{
    let at = NaiveDate::from_ymd_opt(date.year, date.month, date.day)?
        .and_hms_nano_opt(date.hour, date.minute, date.second, date.nano)?;
    let sum = at.checked_add_signed(TimeDelta::try_seconds(seconds)?)?;
    Some(DateTime {
        year: sum.year(),
        month: sum.month(),
        day: sum.day(),
        hour: sum.hour(),
        minute: sum.minute(),
        second: sum.second(),
        nano: sum.nanosecond(),
    })
}

/// Adds `nanoseconds` nanoseconds to `date` with `chrono`, as
/// [`chrono_plus_days`] adds days, the duration being made by
/// `TimeDelta::nanoseconds`. The contract claims only that the result is a
/// function of the arguments.
#[verifier::external_body]
fn chrono_plus_nanoseconds(date: DateTime, nanoseconds: i64) -> (r: Option<DateTime>)
    ensures
        r == plus_nanoseconds(date, nanoseconds),
{
    let at = NaiveDate::from_ymd_opt(date.year, date.month, date.day)?
        .and_hms_nano_opt(date.hour, date.minute, date.second, date.nano)?;
    let sum = at.checked_add_signed(TimeDelta::nanoseconds(nanoseconds))?;
    Some(DateTime {
        year: sum.year(),
        month: sum.month(),
        day: sum.day(),
        hour: sum.hour(),
        minute: sum.minute(),
        second: sum.second(),
        nano: sum.nanosecond(),
    })
}

/// Asks `chrono` for the day of the week of a date: `NaiveDate::from_ymd_opt`
/// reads the date and `Datelike::weekday` gives the day. The contract claims
/// only that the result is a function of the arguments.
#[verifier::external_body]
fn chrono_weekday(year: i32, month: u32, day: u32) -> (r: Option<Weekday>)
    ensures
        r == weekday_of(year, month, day),
{
    Some(match NaiveDate::from_ymd_opt(year, month, day)?.weekday() {
        chrono::Weekday::Mon => Weekday::Mon,
        chrono::Weekday::Tue => Weekday::Tue,
        chrono::Weekday::Wed => Weekday::Wed,
        chrono::Weekday::Thu => Weekday::Thu,
        chrono::Weekday::Fri => Weekday::Fri,
        chrono::Weekday::Sat => Weekday::Sat,
        chrono::Weekday::Sun => Weekday::Sun,
    })
}

/// Asks `chrono` for the number of days from one date to another:
/// `NaiveDate::from_ymd_opt` reads the two dates,
/// `NaiveDate::signed_duration_since` takes their difference and
/// `TimeDelta::num_days` gives its days. The contract claims only that the
/// result is a function of the arguments.
#[verifier::external_body]
fn chrono_days_between(
    from_year: i32,
    from_month: u32,
    from_day: u32,
    to_year: i32,
    to_month: u32,
    to_day: u32,
) -> (r: Option<i64>)
    ensures
        r == days_between(from_year, from_month, from_day, to_year, to_month, to_day),
{
    let from = NaiveDate::from_ymd_opt(from_year, from_month, from_day)?;
    let to = NaiveDate::from_ymd_opt(to_year, to_month, to_day)?;
    Some(to.signed_duration_since(from).num_days())
}

impl Weekday {
    /// The number of days since the last Monday: 0 for Monday, 6 for Sunday.
    pub open spec fn spec_days_from_monday(self) -> u32 {
        match self {
            Weekday::Mon => 0,
            Weekday::Tue => 1,
            Weekday::Wed => 2,
            Weekday::Thu => 3,
            Weekday::Fri => 4,
            Weekday::Sat => 5,
            Weekday::Sun => 6,
        }
    }

    /// The number of days since the last Sunday: 0 for Sunday, 6 for
    /// Saturday.
    pub open spec fn spec_days_from_sunday(self) -> u32 {
        match self {
            Weekday::Mon => 1,
            Weekday::Tue => 2,
            Weekday::Wed => 3,
            Weekday::Thu => 4,
            Weekday::Fri => 5,
            Weekday::Sat => 6,
            Weekday::Sun => 0,
        }
    }

    /// Computes the number of days since the last Monday.
    pub fn num_days_from_monday(self) -> (r: u32)
        ensures
            r == self.spec_days_from_monday(),
    {
        match self {
            Weekday::Mon => 0,
            Weekday::Tue => 1,
            Weekday::Wed => 2,
            Weekday::Thu => 3,
            Weekday::Fri => 4,
            Weekday::Sat => 5,
            Weekday::Sun => 6,
        }
    }

    /// Computes the number of days since the last Sunday.
    pub fn num_days_from_sunday(self) -> (r: u32)
        ensures
            r == self.spec_days_from_sunday(),
            r == (self.spec_days_from_monday() + 1) % 7,
    {
        match self {
            Weekday::Mon => 1,
            Weekday::Tue => 2,
            Weekday::Wed => 3,
            Weekday::Thu => 4,
            Weekday::Fri => 5,
            Weekday::Sat => 6,
            Weekday::Sun => 0,
        }
    }

    /// Whether the day is a Saturday or a Sunday.
    pub fn is_weekend(self) -> (r: bool)
        ensures
            r == (self == Weekday::Sat || self == Weekday::Sun),
    {
        match self {
            Weekday::Sat => true,
            Weekday::Sun => true,
            _ => false,
        }
    }
}

impl DateTime {
    /// `self` is earlier than `other`: the fields are compared in turn,
    /// from the year down to the nanosecond.
    pub open spec fn lt(self, other: DateTime) -> bool {
        ||| self.year < other.year
        ||| self.year == other.year && self.month < other.month
        ||| self.year == other.year && self.month == other.month && self.day < other.day
        ||| self.same_day(other) && self.hour < other.hour
        ||| self.same_day(other) && self.hour == other.hour && self.minute < other.minute
        ||| self.same_day(other) && self.hour == other.hour && self.minute == other.minute
            && self.second < other.second
        ||| self.same_day(other) && self.hour == other.hour && self.minute == other.minute
            && self.second == other.second && self.nano < other.nano
    }

    /// `self` is earlier than `other` or the same.
    pub open spec fn le(self, other: DateTime) -> bool {
        self == other || self.lt(other)
    }

    /// Both are on the same day.
    pub open spec fn same_day(self, other: DateTime) -> bool {
        self.year == other.year && self.month == other.month && self.day == other.day
    }

    /// The beginning of the day of `self`.
    pub open spec fn spec_day_beginning(self) -> DateTime {
        DateTime { hour: 0, minute: 0, second: 0, nano: 0, ..self }
    }

    /// Computes whether `self` is earlier than `other`.
    pub fn is_before(&self, other: &DateTime) -> (r: bool)
        ensures
            r == self.lt(*other),
    {
        if self.year != other.year {
            self.year < other.year
        } else if self.month != other.month {
            self.month < other.month
        } else if self.day != other.day {
            self.day < other.day
        } else if self.hour != other.hour {
            self.hour < other.hour
        } else if self.minute != other.minute {
            self.minute < other.minute
        } else if self.second != other.second {
            self.second < other.second
        } else {
            self.nano < other.nano
        }
    }

    /// Computes whether `self` is earlier than `other` or the same.
    pub fn is_before_or_at(&self, other: &DateTime) -> (r: bool)
        ensures
            r == self.le(*other),
    {
        *self == *other || self.is_before(other)
    }

    /// The beginning of the day of `self`.
    pub fn day_beginning(&self) -> (r: DateTime)
        ensures
            r == self.spec_day_beginning(),
    {
        DateTime { hour: 0, minute: 0, second: 0, nano: 0, ..*self }
    }
}

impl AllowedRange {
    /// The range holds `date`.
    pub open spec fn spec_contains(self, date: DateTime) -> bool {
        &&& match self.start {
            Bound::Included(start) => start.le(date),
            Bound::Excluded(start) => start.lt(date),
            Bound::Unbounded => true,
        }
        &&& match self.end {
            Bound::Included(end) => date.le(end),
            Bound::Excluded(end) => date.lt(end),
            Bound::Unbounded => true,
        }
    }

    /// Computes whether the range holds `date`.
    pub fn contains(&self, date: &DateTime) -> (r: bool)
        ensures
            r == self.spec_contains(*date),
    {
        (match self.start {
            Bound::Included(start) => start.is_before_or_at(date),
            Bound::Excluded(start) => start.is_before(date),
            Bound::Unbounded => true,
        }) && (match self.end {
            Bound::Included(end) => date.is_before_or_at(&end),
            Bound::Excluded(end) => date.is_before(&end),
            Bound::Unbounded => true,
        })
    }
}

/// The weekday shown in column `column` of the calendar's header, as days
/// since Monday: the columns run from Monday to Sunday, or from Sunday to
/// Saturday where the week begins on Sunday.
pub open spec fn header_day(sunday_first: bool, column: int) -> int {
    if sunday_first {
        (column + 6) % 7
    } else {
        column
    }
}

/// The weekdays of the calendar's header from left to right, each as days
/// since Monday.
pub fn day_indexes(sunday_first: bool) -> (r: [u8; 7])
    ensures
        forall|column: int| 0 <= column < 7 ==> #[trigger] r[column] == header_day(sunday_first, column),
{
    if sunday_first {
        [6, 0, 1, 2, 3, 4, 5]
    } else {
        [0, 1, 2, 3, 4, 5, 6]
    }
}

/// The number of days that the calendar shows of the month before: the days
/// from the beginning of the week to `first_day`, the weekday of the first of
/// the month.
pub open spec fn start_offset_of(sunday_first: bool, first_day: Weekday) -> u32 {
    if sunday_first {
        first_day.spec_days_from_sunday()
    } else {
        first_day.spec_days_from_monday()
    }
}

/// The number of days that the calendar shows of the month after: the days
/// from `first_day`, the weekday of the first of the month after, to the end
/// of its week; none where that day begins a week.
pub open spec fn end_offset_of(sunday_first: bool, first_day: Weekday) -> u32 {
    ((7 - start_offset_of(sunday_first, first_day)) % 7) as u32
}

/// Computes the number of days that the calendar shows of the month before.
pub fn get_start_offset_of_calendar(sunday_first: bool, first_day: Weekday) -> (r: u32)
    ensures
        r == start_offset_of(sunday_first, first_day),
        r < 7,
{
    if sunday_first {
        first_day.num_days_from_sunday()
    } else {
        first_day.num_days_from_monday()
    }
}

/// Computes the number of days that the calendar shows of the month after.
pub fn get_end_offset_of_calendar(sunday_first: bool, first_day: Weekday) -> (r: u32)
    ensures
        r == end_offset_of(sunday_first, first_day),
        r < 7,
{
    if sunday_first {
        (7 - first_day.num_days_from_sunday()) % 7
    } else {
        (7 - first_day.num_days_from_monday()) % 7
    }
}

/// The month after month `month` of year `year`, as year and month, if it
/// can be counted.
pub open spec fn month_after(year: i32, month: u32) -> Option<(i32, u32)> {
    if month == 12 {
        if year < i32::MAX {
            Some(((year + 1) as i32, 1u32))
        } else {
            None
        }
    } else if month < u32::MAX {
        Some((year, (month + 1) as u32))
    } else {
        None
    }
}

/// The number of days of month `month` of year `year`: the days from its
/// first to the first of the month after, as `chrono` counts them. `None`
/// where there is no such month.
pub open spec fn days_of_month(year: i32, month: u32) -> Option<i64> {
    match month_after(year, month) {
        Some((next_year, next_month)) => days_between(year, month, 1, next_year, next_month, 1),
        None => None,
    }
}

/// Computes the number of days of month `month` of year `year`.
pub fn get_days_from_month(year: i32, month: u32) -> (r: Option<i64>)
    ensures
        r == days_of_month(year, month),
{
    let (next_year, next_month) = if month == 12 {
        if year == i32::MAX {
            return None;
        }
        (year + 1, 1)
    } else {
        if month == u32::MAX {
            return None;
        }
        (year, month + 1)
    };
    chrono_days_between(year, month, 1, next_year, next_month, 1)
}

/// What a month's calendar shows: whole weeks from `start_date` on, made up
/// of the last `start_offset` days of the month before, the `days_in_month`
/// days of the month, and the first `end_offset` days of the month after.
#[derive(Clone, Copy, Debug, PartialEq, Eq, Structural)]
pub struct CalendarGrid {
    pub start_date: DateTime,
    pub start_offset: u32,
    pub days_in_month: i64,
    pub end_offset: u32,
}

impl CalendarGrid {
    /// The number of days shown.
    pub open spec fn spec_cell_count(self) -> int {
        self.start_offset + self.days_in_month + self.end_offset
    }

    /// The number of days shown, or `None` where it cannot be counted.
    pub fn cell_count(&self) -> (r: Option<i64>)
        ensures
            r matches Some(n) ==> n == self.spec_cell_count(),
            r is None <==> self.spec_cell_count() > i64::MAX,
    {
        let offsets: i64 = self.start_offset as i64 + self.end_offset as i64;
        if self.days_in_month > i64::MAX - offsets {
            None
        } else {
            Some(offsets + self.days_in_month)
        }
    }

    /// Whether the day shown as number `cell`, from 0, begins a row.
    pub fn begins_row(cell: i64) -> (r: bool)
        requires
            cell >= 0,
        ensures
            r == (cell % 7 == 0),
    {
        cell % 7 == 0
    }

    /// The date shown as number `cell`, from 0: that many days after the
    /// first shown, as `chrono` adds them.
    pub fn cell_date(&self, cell: i64) -> (r: Option<DateTime>)
        ensures
            r == plus_days(self.start_date, cell),
    {
        chrono_plus_days(self.start_date, cell)
    }
}

/// The calendar of a month whose first day is `first`, a `first_weekday`,
/// and which has `days_in_month` days; `None` where `chrono` has no date for
/// the first day shown or for the first of the month after.
pub open spec fn calendar_from(
    sunday_first: bool,
    first: DateTime,
    first_weekday: Weekday,
    days_in_month: i64,
) -> Option<CalendarGrid> {
    let start_offset = start_offset_of(sunday_first, first_weekday);
    match (plus_days(first, days_in_month), plus_days(first, (0 - start_offset) as i64)) {
        (Some(next), Some(start_date)) => match weekday_of(next.year, next.month, next.day) {
            Some(next_weekday) => Some(
                CalendarGrid {
                    start_date,
                    start_offset,
                    days_in_month,
                    end_offset: end_offset_of(sunday_first, next_weekday),
                },
            ),
            None => None,
        },
        _ => None,
    }
}

/// The calendar of the month of `date`, as `chrono` has it; `None` where
/// `chrono` has no such month, or not the days around it.
pub open spec fn calendar_grid_of(date: DateTime, sunday_first: bool) -> Option<CalendarGrid> {
    match (weekday_of(date.year, date.month, 1), days_of_month(date.year, date.month)) {
        (Some(first_weekday), Some(days_in_month)) => calendar_from(
            sunday_first,
            DateTime { day: 1, ..date },
            first_weekday,
            days_in_month,
        ),
        _ => None,
    }
}

/// Works out what the calendar of the month of `date` shows.
pub fn calendar_grid(date: DateTime, sunday_first: bool) -> (r: Option<CalendarGrid>)
    ensures
        r == calendar_grid_of(date, sunday_first),
{
    let first_day_of_current_month = DateTime { day: 1, ..date };
    let first_weekday = match chrono_weekday(date.year, date.month, 1) {
        Some(day) => day,
        None => {
            return None;
        },
    };
    let start_offset = get_start_offset_of_calendar(sunday_first, first_weekday);
    let days_in_month = match get_days_from_month(date.year, date.month) {
        Some(days) => days,
        None => {
            return None;
        },
    };
    let first_day_of_next_month = match chrono_plus_days(first_day_of_current_month, days_in_month) {
        Some(next) => next,
        None => {
            return None;
        },
    };
    let next_weekday = match chrono_weekday(
        first_day_of_next_month.year,
        first_day_of_next_month.month,
        first_day_of_next_month.day,
    ) {
        Some(day) => day,
        None => {
            return None;
        },
    };
    let end_offset = get_end_offset_of_calendar(sunday_first, next_weekday);
    let start_date = match chrono_plus_days(first_day_of_current_month, -(start_offset as i64)) {
        Some(start) => start,
        None => {
            return None;
        },
    };
    Some(CalendarGrid { start_date, start_offset, days_in_month, end_offset })
}

/// How far the hour and the minute of a date can be turned.
#[derive(Clone, Copy, Debug, PartialEq, Eq, Structural)]
pub struct TimeRanges {
    /// The least hour.
    pub start_hour: i64,
    /// The greatest hour.
    pub end_hour: i64,
    /// The least minute.
    pub start_min: i64,
    /// The greatest minute.
    pub end_min: i64,
}

/// The least hour and minute to which `date` can be turned within a range
/// that starts at `start`.
///
/// Where the range starts later than the day of `date` begins, they are the
/// hour of the start and, if `date` is in that hour, the minute of the start
/// (the minute after it where the start itself is not in the range), else
/// minute 0. Else they are hour 0 and minute 0.
pub open spec fn least_time(start: Bound, date: DateTime) -> (i64, i64) {
    match start {
        Bound::Included(dt) if date.spec_day_beginning().lt(dt) => if dt.hour == date.hour {
            (dt.hour as i64, dt.minute as i64)
        } else {
            (dt.hour as i64, 0i64)
        },
        Bound::Excluded(dt) if date.spec_day_beginning().le(dt) => if dt.hour == date.hour {
            (dt.hour as i64, (dt.minute + 1) as i64)
        } else {
            (dt.hour as i64, 0i64)
        },
        _ => (0i64, 0i64),
    }
}

/// The greatest hour and minute to which `date` can be turned within a
/// range that ends at `end`, `day_ending` being the beginning of the day
/// after `date`.
///
/// Where the range ends before the day of `date` does, they are the hour of
/// the end and, if `date` is in that hour, the minute of the end (the minute
/// before it where the end itself is not in the range), else minute 59. Else
/// they are hour 23 and minute 59.
pub open spec fn greatest_time(end: Bound, date: DateTime, day_ending: DateTime) -> (i64, i64) {
    match end {
        Bound::Included(dt) if dt.lt(day_ending) => if dt.hour == date.hour {
            (dt.hour as i64, dt.minute as i64)
        } else {
            (dt.hour as i64, 59i64)
        },
        Bound::Excluded(dt) if dt.le(day_ending) => if dt.hour == date.hour {
            (dt.hour as i64, (dt.minute - 1) as i64)
        } else {
            (dt.hour as i64, 59i64)
        },
        _ => (23i64, 59i64),
    }
}

/// How far the hour and the minute of `date` can be turned within `range`,
/// `day_ending` being the beginning of the day after `date`. With no range
/// the hour runs from 0 to 23 and the minute from 0 to 59.
pub open spec fn time_ranges_within(
    range: Option<AllowedRange>,
    date: DateTime,
    day_ending: DateTime,
) -> TimeRanges {
    match range {
        Some(range) => TimeRanges {
            start_hour: least_time(range.start, date).0,
            end_hour: greatest_time(range.end, date, day_ending).0,
            start_min: least_time(range.start, date).1,
            end_min: greatest_time(range.end, date, day_ending).1,
        },
        None => TimeRanges { start_hour: 0, end_hour: 23, start_min: 0, end_min: 59 },
    }
}

/// Computes how far the hour and the minute of `date` can be turned within
/// `range`, `day_ending` being the beginning of the day after `date`.
pub fn time_ranges_in_day(range: Option<AllowedRange>, date: DateTime, day_ending: DateTime) -> (r:
    TimeRanges)
    ensures
        r == time_ranges_within(range, date, day_ending),
{
    match range {
        Some(range) => {
            let day_beginning = date.day_beginning();
            let (start_hour, start_min): (i64, i64) = match range.start {
                Bound::Included(dt) => if day_beginning.is_before(&dt) {
                    if dt.hour == date.hour {
                        (dt.hour as i64, dt.minute as i64)
                    } else {
                        (dt.hour as i64, 0)
                    }
                } else {
                    (0, 0)
                },
                Bound::Excluded(dt) => if day_beginning.is_before_or_at(&dt) {
                    if dt.hour == date.hour {
                        (dt.hour as i64, dt.minute as i64 + 1)
                    } else {
                        (dt.hour as i64, 0)
                    }
                } else {
                    (0, 0)
                },
                Bound::Unbounded => (0, 0),
            };
            let (end_hour, end_min): (i64, i64) = match range.end {
                Bound::Included(dt) => if dt.is_before(&day_ending) {
                    if dt.hour == date.hour {
                        (dt.hour as i64, dt.minute as i64)
                    } else {
                        (dt.hour as i64, 59)
                    }
                } else {
                    (23, 59)
                },
                Bound::Excluded(dt) => if dt.is_before_or_at(&day_ending) {
                    if dt.hour == date.hour {
                        (dt.hour as i64, dt.minute as i64 - 1)
                    } else {
                        (dt.hour as i64, 59)
                    }
                } else {
                    (23, 59)
                },
                Bound::Unbounded => (23, 59),
            };
            TimeRanges { start_hour, end_hour, start_min, end_min }
        },
        None => TimeRanges { start_hour: 0, end_hour: 23, start_min: 0, end_min: 59 },
    }
}

/// Computes how far the hour and the minute of `date` can be turned within
/// `range`. With a range, `chrono` is asked for the beginning of the day
/// after `date`; the result is `None` where it has none.
pub fn time_ranges(range: Option<AllowedRange>, date: DateTime) -> (r: Option<TimeRanges>)
    ensures
        r == match range {
            Some(_) => match plus_days(date.spec_day_beginning(), 1) {
                Some(day_ending) => Some(time_ranges_within(range, date, day_ending)),
                None => None,
            },
            None => Some(TimeRanges { start_hour: 0, end_hour: 23, start_min: 0, end_min: 59 }),
        },
{
    match range {
        Some(_) => match chrono_plus_days(date.day_beginning(), 1) {
            Some(day_ending) => Some(time_ranges_in_day(range, date, day_ending)),
            None => None,
        },
        None => Some(TimeRanges { start_hour: 0, end_hour: 23, start_min: 0, end_min: 59 }),
    }
}

/// The seconds by which a date moves when its hour is turned from
/// `from_hour` to `hour` and its minute from `from_minute` to `minute`.
pub open spec fn turned_seconds(from_hour: u32, from_minute: u32, hour: i64, minute: i64) -> int {
    (hour - from_hour) * 3600 + (minute - from_minute) * 60
}

/// The date `date` with its hour turned to `hour` and its minute to
/// `minute`: `date` moved by the difference, as `chrono` adds it. `None`
/// where the difference cannot be counted or `chrono` has no such date.
pub fn turn_time(date: DateTime, hour: i64, minute: i64) -> (r: Option<DateTime>)
    ensures
        r == if i64::MIN <= turned_seconds(date.hour, date.minute, hour, minute) <= i64::MAX {
            plus_seconds(date, turned_seconds(date.hour, date.minute, hour, minute) as i64)
        } else {
            None
        },
{
    let seconds: i128 = (hour as i128 - date.hour as i128) * 3600 + (minute as i128
        - date.minute as i128) * 60;
    if seconds < i64::MIN as i128 || seconds > i64::MAX as i128 {
        return None;
    }
    chrono_plus_seconds(date, seconds as i64)
}

/// Where a step to `new_date` lands when only `range` is allowed:
///
/// - with no range, at `new_date`;
/// - before a start that is in the range, at the start; at or before a start
///   that is not, at `above_start`, the instant after the start;
/// - else after an end that is in the range, at the end; at or after an end
///   that is not, at `below_end`, the instant before the end;
/// - else at `new_date`.
pub open spec fn landing(
    range: Option<AllowedRange>,
    new_date: DateTime,
    above_start: Option<DateTime>,
    below_end: Option<DateTime>,
) -> Option<DateTime> {
    match range {
        None => Some(new_date),
        Some(range) => match (range.start, range.end) {
            (Bound::Included(lower), _) if new_date.lt(lower) => Some(lower),
            (Bound::Excluded(lower), _) if new_date.le(lower) => above_start,
            (_, Bound::Included(upper)) if upper.lt(new_date) => Some(upper),
            (_, Bound::Excluded(upper)) if upper.le(new_date) => below_end,
            _ => Some(new_date),
        },
    }
}

/// Computes where a step to `new_date` lands when only `range` is allowed,
/// `above_start` being the instant after the range's start and `below_end`
/// the instant before its end.
pub fn land_in_range(
    range: Option<AllowedRange>,
    new_date: DateTime,
    above_start: Option<DateTime>,
    below_end: Option<DateTime>,
) -> (r: Option<DateTime>)
    ensures
        r == landing(range, new_date, above_start, below_end),
{
    let range = match range {
        None => {
            return Some(new_date);
        },
        Some(range) => range,
    };
    // The range is never left.
    match range.start {
        Bound::Included(lower) => {
            if new_date.is_before(&lower) {
                return Some(lower);
            }
        },
        Bound::Excluded(lower) => {
            if new_date.is_before_or_at(&lower) {
                return above_start;
            }
        },
        Bound::Unbounded => {},
    }
    match range.end {
        Bound::Included(upper) => {
            if upper.is_before(&new_date) {
                return Some(upper);
            }
        },
        Bound::Excluded(upper) => {
            if upper.is_before_or_at(&new_date) {
                return below_end;
            }
        },
        Bound::Unbounded => {},
    }
    Some(new_date)
}

/// The instant after the start of `range`, where the start itself is not in
/// the range, as `chrono` adds a nanosecond.
pub open spec fn instant_above_start(range: Option<AllowedRange>) -> Option<DateTime> {
    match range {
        Some(AllowedRange { start: Bound::Excluded(lower), .. }) => plus_nanoseconds(lower, 1i64),
        _ => None,
    }
}

/// The instant before the end of `range`, where the end itself is not in
/// the range, as `chrono` takes a nanosecond off.
pub open spec fn instant_below_end(range: Option<AllowedRange>) -> Option<DateTime> {
    match range {
        Some(AllowedRange { end: Bound::Excluded(upper), .. }) => plus_nanoseconds(upper, -1i64),
        _ => None,
    }
}

/// Steps from `date` by `days` days, as `chrono` adds them, and lands
/// within `range`. `None` where `chrono` has no date for the step or for the
/// landing.
pub fn step_date(date: DateTime, days: i64, range: Option<AllowedRange>) -> (r: Option<DateTime>)
    ensures
        r == match plus_days(date, days) {
            Some(new_date) => landing(
                range,
                new_date,
                instant_above_start(range),
                instant_below_end(range),
            ),
            None => None,
        },
{
    let new_date = match chrono_plus_days(date, days) {
        Some(new_date) => new_date,
        None => {
            return None;
        },
    };
    let above_start = match range {
        Some(AllowedRange { start: Bound::Excluded(lower), .. }) => chrono_plus_nanoseconds(lower, 1),
        _ => None,
    };
    let below_end = match range {
        Some(AllowedRange { end: Bound::Excluded(upper), .. }) => chrono_plus_nanoseconds(upper, -1),
        _ => None,
    };
    land_in_range(range, new_date, above_start, below_end)
}

/// A day can be picked: it is not the day that is selected, and, with a
/// range, the range holds the beginning of the day or the beginning of the
/// day after, `day_ending`.
pub open spec fn day_enabled(
    selected: DateTime,
    date: DateTime,
    range: Option<AllowedRange>,
    day_ending: DateTime,
) -> bool {
    selected != date && match range {
        Some(range) => range.spec_contains(date.spec_day_beginning()) || range.spec_contains(
            day_ending,
        ),
        None => true,
    }
}

/// Computes whether the day `date` can be picked while `selected` is
/// selected, `day_ending` being the beginning of the day after `date`.
pub fn is_day_enabled_until(
    selected: DateTime,
    date: DateTime,
    range: Option<AllowedRange>,
    day_ending: DateTime,
) -> (r: bool)
    ensures
        r == day_enabled(selected, date, range, day_ending),
{
    let mut is_enabled = selected != date;
    match range {
        Some(range) => {
            // The day counts if the range reaches into it at either end.
            let day_beginning = date.day_beginning();
            is_enabled = is_enabled && (range.contains(&day_beginning) || range.contains(
                &day_ending,
            ));
        },
        None => {},
    }
    is_enabled
}

/// Computes whether the day `date` can be picked while `selected` is
/// selected. With a range, `chrono` is asked for the beginning of the day
/// after `date`; the result is `None` where it has none.
pub fn is_day_enabled(selected: DateTime, date: DateTime, range: Option<AllowedRange>) -> (r:
    Option<bool>)
    ensures
        r == match range {
            Some(_) => match plus_days(date.spec_day_beginning(), 1) {
                Some(day_ending) => Some(day_enabled(selected, date, range, day_ending)),
                None => None,
            },
            None => Some(selected != date),
        },
{
    match range {
        Some(_) => match chrono_plus_days(date.day_beginning(), 1) {
            Some(day_ending) => Some(is_day_enabled_until(selected, date, range, day_ending)),
            None => None,
        },
        None => Some(selected != date),
    }
}

/// How a day's button looks.
#[derive(Clone, Copy, Debug, PartialEq, Eq, Structural)]
pub enum DayLook {
    /// A day of another month than the selected: no frame.
    OtherMonth,
    /// The selected day: filled as the selection is.
    Selected,
    /// Any other day of the selected month.
    Plain,
}

/// How the button of the day `date` looks while `selected` is selected.
pub fn day_look(selected: DateTime, date: DateTime) -> (r: DayLook)
    ensures
        r == if selected.month != date.month {
            DayLook::OtherMonth
        } else if selected == date {
            DayLook::Selected
        } else {
            DayLook::Plain
        },
{
    if selected.month != date.month {
        DayLook::OtherMonth
    } else if selected == date {
        DayLook::Selected
    } else {
        DayLook::Plain
    }
}

} // verus!
