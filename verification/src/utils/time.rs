//! Windows file times and Unix timestamps as calendar dates, in UTC.
use crate::text::{decimal_padded, u64_to_decimal_padded};
use std::cmp::Ordering;
use vstd::prelude::*;
use vstd::std_specs::cmp::{PartialEqSpecImpl, PartialOrdSpecImpl};
use vstd::std_specs::convert::FromSpecImpl;
use vstd::string::*;

verus! {

/// Simplifies handling Windows filetime dates. Use only with UTC dates as it does not take time zones into account.
#[derive(Clone, Copy)]
pub struct WinFiletime(pub u64);

/// Simplifies handling unix timestamp dates, in milliseconds. Use only with UTC dates as it does not take time zones into account.
#[derive(Clone, Copy)]
pub struct UnixTimestamp(pub u64);

/// A Windows filetime with its calendar date, which is worked out once, when
/// the value is made.
#[derive(Clone, Copy, Debug, Eq, Ord)]
pub struct Filetime {
    original: u64,
    year: u16,
    month: u8,
    day: u8,
    hour: u8,
    minute: u8,
    second: u8,
    nanos: u32,
}

/// Whether a year of the Gregorian calendar has 366 days.
pub open spec fn leap_year(year: int) -> bool {
    (year % 4 == 0 && year % 100 != 0) || year % 400 == 0
}

/// The year, and the day within it, that lie `days` days after the first day
/// of `year`, as this library counts them: every year takes 365 days, and a
/// leap year that is entered with a year of days or more still to count
/// takes one day more.
pub open spec fn walk_years(year: int, days: int) -> (int, int)
    decreases days,
{
    if days < 365 {
        (year, days)
    } else if days - 365 < 365 {
        (year + 1, days - 365)
    } else if leap_year(year + 1) {
        walk_years(year + 1, days - 365 - 1)
    } else {
        walk_years(year + 1, days - 365)
    }
}

/// The days of a year that lie before the end of month `month`.
pub open spec fn days_to_month_end(leap: bool, month: int) -> int {
    let extra: int = if leap { 1 } else { 0 };
    if month <= 0 {
        0
    } else if month == 1 {
        31
    } else if month == 2 {
        59 + extra
    } else if month == 3 {
        90 + extra
    } else if month == 4 {
        120 + extra
    } else if month == 5 {
        151 + extra
    } else if month == 6 {
        181 + extra
    } else if month == 7 {
        212 + extra
    } else if month == 8 {
        243 + extra
    } else if month == 9 {
        273 + extra
    } else if month == 10 {
        304 + extra
    } else {
        334 + extra
    }
}

/// The month in which day `rest` of a year falls, from 1: the first whose
/// end lies after that day, and December where none of the first eleven does.
pub open spec fn month_of(leap: bool, rest: int) -> int
    recommends
        0 <= rest,
{
    if rest < days_to_month_end(leap, 1) {
        1
    } else if rest < days_to_month_end(leap, 2) {
        2
    } else if rest < days_to_month_end(leap, 3) {
        3
    } else if rest < days_to_month_end(leap, 4) {
        4
    } else if rest < days_to_month_end(leap, 5) {
        5
    } else if rest < days_to_month_end(leap, 6) {
        6
    } else if rest < days_to_month_end(leap, 7) {
        7
    } else if rest < days_to_month_end(leap, 8) {
        8
    } else if rest < days_to_month_end(leap, 9) {
        9
    } else if rest < days_to_month_end(leap, 10) {
        10
    } else if rest < days_to_month_end(leap, 11) {
        11
    } else {
        12
    }
}

/// The days counted off before the month in which day `rest` falls. Before
/// December 335 days are counted off in every year.
pub open spec fn days_before_month(leap: bool, rest: int) -> int {
    let month = month_of(leap, rest);
    if month == 12 {
        335
    } else {
        days_to_month_end(leap, month - 1)
    }
}

/// The day that is written for day `rest` of a year: the days since the
/// start of its month as `days_before_month` counts them, from 1. In a year
/// of 365 days this is not the day of the calendar in December: 335 days
/// are counted off where 334 have passed, so that the first two days of that
/// month are both written as 1 and every later one a day low.
pub open spec fn day_written(leap: bool, rest: int) -> int {
    let before = days_before_month(leap, rest);
    if rest >= before {
        rest - before + 1
    } else {
        1
    }
}

/// A point in time as a calendar date and a time of day.
pub struct DateTime {
    pub year: int,
    pub month: int,
    pub day: int,
    pub hour: int,
    pub minute: int,
    pub second: int,
    /// What is left of the second, in the unit the date was made from.
    pub fraction: int,
}

/// The date that is told for the time `ticks` units after the first day of
/// `epoch_year`, where a second holds `per_second` units: the year and the
/// day within it as `walk_years` counts them, and the day as `day_written`
/// writes it.
pub open spec fn date_of(epoch_year: int, ticks: int, per_second: int) -> DateTime {
    let per_day = 86_400 * per_second;
    let in_day = ticks % per_day;
    let (year, rest) = walk_years(epoch_year, ticks / per_day);
    DateTime {
        year,
        month: month_of(leap_year(year), rest),
        day: day_written(leap_year(year), rest),
        hour: in_day / (3_600 * per_second),
        minute: (in_day % (3_600 * per_second)) / (60 * per_second),
        second: (in_day % (60 * per_second)) / per_second,
        fraction: in_day % per_second,
    }
}

/// A date written as day, month and year, then hour, minute and second,
/// each with two digits at least and the year with four. Where `millis` is
/// given it follows after a dot, with three digits at least.
pub open spec fn date_text(d: DateTime, millis: Option<int>) -> Seq<char> {
    let head = decimal_padded(d.day as nat, 2) + "-"@ + decimal_padded(d.month as nat, 2) + "-"@
        + decimal_padded(d.year as nat, 4) + " "@ + decimal_padded(d.hour as nat, 2) + ":"@
        + decimal_padded(d.minute as nat, 2) + ":"@ + decimal_padded(d.second as nat, 2);
    match millis {
        None => head,
        Some(ms) => head + "."@ + decimal_padded(ms as nat, 3),
    }
}

/// The milliseconds to write after a date: none where the fraction is zero.
pub open spec fn shown_millis(fraction: int, per_milli: int) -> Option<int> {
    if fraction == 0 {
        None
    } else {
        Some(fraction / per_milli)
    }
}

/// What a `Filetime` holds, as plain values.
pub struct FiletimeView {
    pub original: u64,
    pub year: u16,
    pub month: u8,
    pub day: u8,
    pub hour: u8,
    pub minute: u8,
    pub second: u8,
    pub nanos: u32,
}

/// The fields of the `Filetime` made from `timestamp`: the date that lies
/// `timestamp` times 100 nanoseconds after the first day of 1601.
pub open spec fn filetime_fields(timestamp: u64) -> FiletimeView {
    let d = date_of(1601, timestamp as int * 100, 1_000_000_000);
    FiletimeView {
        original: timestamp,
        year: d.year as u16,
        month: d.month as u8,
        day: d.day as u8,
        hour: d.hour as u8,
        minute: d.minute as u8,
        second: d.second as u8,
        nanos: d.fraction as u32,
    }
}

/// The date of a Windows filetime, to the millisecond.
pub open spec fn win_date(filetime: u64) -> DateTime {
    date_of(1601, filetime as int / 10_000, 1_000)
}

/// The date of a Unix timestamp in milliseconds.
pub open spec fn unix_date(millis: u64) -> DateTime {
    date_of(1970, millis as int, 1_000)
}

/// A Windows filetime as a Unix timestamp in milliseconds: the filetime in
/// milliseconds, rounded up, less the milliseconds from 1601 to 1970, and 0
/// where the filetime lies before 1970.
pub open spec fn unix_millis_of_filetime(filetime: u64) -> int {
    let millis = (filetime as int + 9_999) / 10_000;
    if millis >= 11_644_473_600_000 {
        millis - 11_644_473_600_000
    } else {
        0
    }
}

/// The day that `walk_years` gives lies within a year and not after the
/// days that were asked for, and the year it gives lies no further on than
/// the days make years of 365 days.
pub proof fn lemma_walk_years(year: int, days: int)
    requires
        0 <= days,
    ensures
        0 <= walk_years(year, days).1 < 365,
        walk_years(year, days).1 <= days,
        year <= walk_years(year, days).0 <= year + days / 365,
    decreases days,
{
    if days < 365 {
    } else if days - 365 < 365 {
    } else if leap_year(year + 1) {
        lemma_walk_years(year + 1, days - 365 - 1);
    } else {
        lemma_walk_years(year + 1, days - 365);
    }
}

/// Whether a year has 366 days.
fn is_leap_year(year: u128) -> (r: bool)
    ensures
        r == leap_year(year as int),
{
    (year % 4 == 0 && year % 100 != 0) || (year % 100 == 0 && year % 400 == 0)
}

/// The year, and the day within it, that lie `days` days after the first
/// day of `epoch_year`.
fn years_from(epoch_year: u128, days: u128) -> (r: (u128, u128))
    requires
        epoch_year <= 1970,
        days <= u64::MAX,
    ensures
        (r.0 as int, r.1 as int) == walk_years(epoch_year as int, days as int),
        r.1 < 365,
        r.0 <= epoch_year + days / 365,
{
    let mut year: u128 = epoch_year;
    let mut rest: u128 = days;
    proof {
        lemma_walk_years(epoch_year as int, days as int);
    }
    while rest >= 365
        invariant
            walk_years(year as int, rest as int) == walk_years(epoch_year as int, days as int),
            rest <= days,
            days <= u64::MAX,
            epoch_year <= year,
            year + rest / 365 <= epoch_year + days / 365,
            epoch_year <= 1970,
        decreases rest,
    {
        rest = rest - 365;
        year = year + 1;
        if rest >= 365 && is_leap_year(year) {
            rest = rest - 1;
        }
    }
    proof {
        lemma_walk_years(year as int, rest as int);
    }
    (year, rest)
}

/// The month, from 1, in which day `rest` of a year falls, and the days
/// counted off before that month.
fn month_and_days_before(leap: bool, rest: u128) -> (r: (u128, u128))
    requires
        rest < 365,
    ensures
        r.0 == month_of(leap, rest as int),
        r.1 == days_before_month(leap, rest as int),
        1 <= r.0 <= 12,
{
    let table: [u128; 12] = if leap {
        [0, 31, 60, 91, 121, 152, 182, 213, 244, 274, 305, 335]
    } else {
        [0, 31, 59, 90, 120, 151, 181, 212, 243, 273, 304, 334]
    };
    let mut pos: usize = 1;
    while pos < 12
        invariant
            1 <= pos <= 12,
            forall|m: int| 0 <= m < 12 ==> table[m] == days_to_month_end(leap, m),
            forall|m: int| 1 <= m < pos ==> rest >= days_to_month_end(leap, m),
        decreases 12 - pos,
    {
        if table[pos] > rest {
            return (pos as u128, table[pos - 1]);
        }
        pos = pos + 1;
    }
    (12, 335)
}

/// The parts of a date, as the functions of this file hand them on.
struct Parts {
    year: u128,
    month: u128,
    day: u128,
    hour: u128,
    minute: u128,
    second: u128,
    fraction: u128,
}

impl Parts {
    spec fn date(&self) -> DateTime {
        DateTime {
            year: self.year as int,
            month: self.month as int,
            day: self.day as int,
            hour: self.hour as int,
            minute: self.minute as int,
            second: self.second as int,
            fraction: self.fraction as int,
        }
    }
}

/// The month of day `rest` of `year`, from 1, and the day that is written
/// for it.
fn month_and_day(year: u128, rest: u128) -> (r: (u128, u128))
    requires
        rest < 365,
    ensures
        r.0 == month_of(leap_year(year as int), rest as int),
        r.1 == day_written(leap_year(year as int), rest as int),
        1 <= r.0 <= 12,
        1 <= r.1 <= 31,
{
    let (month, before) = month_and_days_before(is_leap_year(year), rest);
    let day = if rest >= before {
        rest - before + 1
    } else {
        1
    };
    (month, day)
}

/// The date that lies `millis` milliseconds after the first day of
/// `epoch_year`.
fn date_from_millis(epoch_year: u128, millis: u128) -> (p: Parts)
    requires
        epoch_year == 1601 || epoch_year == 1970,
        millis <= u64::MAX,
    ensures
        p.date() == date_of(epoch_year as int, millis as int, 1_000),
        p.year <= epoch_year + 584_942_418,
        1 <= p.month <= 12,
        1 <= p.day <= 31,
        p.hour < 24,
        p.minute < 60,
        p.second < 60,
        p.fraction < 1_000,
{
    let days = millis / 86_400_000;
    let in_day = millis % 86_400_000;
    let (year, rest) = years_from(epoch_year, days);
    let (month, day) = month_and_day(year, rest);
    let hour = in_day / 3_600_000;
    let minute = (in_day % 3_600_000) / 60_000;
    let second = (in_day % 60_000) / 1_000;
    let fraction = in_day % 1_000;
    Parts { year, month, day, hour, minute, second, fraction }
}

/// The date that lies `nanos` nanoseconds after the first day of 1601.
fn date_from_nanos(nanos: u128) -> (p: Parts)
    requires
        nanos <= u64::MAX * 100,
    ensures
        p.date() == date_of(1601, nanos as int, 1_000_000_000),
        p.year <= 60_095,
        1 <= p.month <= 12,
        1 <= p.day <= 31,
        p.hour < 24,
        p.minute < 60,
        p.second < 60,
        p.fraction < 1_000_000_000,
{
    let days = nanos / 86_400_000_000_000;
    let in_day = nanos % 86_400_000_000_000;
    let (year, rest) = years_from(1601, days);
    let (month, day) = month_and_day(year, rest);
    let hour = in_day / 3_600_000_000_000;
    let minute = (in_day % 3_600_000_000_000) / 60_000_000_000;
    let second = (in_day % 60_000_000_000) / 1_000_000_000;
    let fraction = in_day % 1_000_000_000;
    Parts { year, month, day, hour, minute, second, fraction }
}

/// Writes a date, and after it the milliseconds where they are given.
fn write_date(p: &Parts, millis: Option<u64>) -> (s: String)
    requires
        p.year <= u64::MAX,
        p.month <= u64::MAX,
        p.day <= u64::MAX,
        p.hour <= u64::MAX,
        p.minute <= u64::MAX,
        p.second <= u64::MAX,
    ensures
        s@ == date_text(
            p.date(),
            match millis {
                Some(ms) => Some(ms as int),
                None => None,
            },
        ),
{
    let mut s = u64_to_decimal_padded(p.day as u64, 2);
    s.append("-");
    s.append(u64_to_decimal_padded(p.month as u64, 2).as_str());
    s.append("-");
    s.append(u64_to_decimal_padded(p.year as u64, 4).as_str());
    s.append(" ");
    s.append(u64_to_decimal_padded(p.hour as u64, 2).as_str());
    s.append(":");
    s.append(u64_to_decimal_padded(p.minute as u64, 2).as_str());
    s.append(":");
    s.append(u64_to_decimal_padded(p.second as u64, 2).as_str());
    match millis {
        Some(ms) => {
            s.append(".");
            s.append(u64_to_decimal_padded(ms, 3).as_str());
        },
        None => {},
    }
    s
}

impl View for Filetime {
    type V = FiletimeView;

    closed spec fn view(&self) -> FiletimeView {
        FiletimeView {
            original: self.original,
            year: self.year,
            month: self.month,
            day: self.day,
            hour: self.hour,
            minute: self.minute,
            second: self.second,
            nanos: self.nanos,
        }
    }
}

impl Filetime {
    /// The filetime `timestap`, counted in units of 100 nanoseconds from the
    /// first day of 1601, with its calendar date.
    pub fn new(timestap: u64) -> (r: Self)
        ensures
            r@ == filetime_fields(timestap),
    {
        let p = date_from_nanos((timestap as u128) * 100);
        Filetime {
            original: timestap,
            year: p.year as u16,
            month: p.month as u8,
            day: p.day as u8,
            hour: p.hour as u8,
            minute: p.minute as u8,
            second: p.second as u8,
            nanos: p.fraction as u32,
        }
    }

    /// Returns the year number
    pub fn year(&self) -> (r: u16)
        ensures
            r == self@.year,
    {
        self.year
    }

    /// Returns the month number
    pub fn month(&self) -> (r: u8)
        ensures
            r == self@.month,
    {
        self.month
    }

    /// Returns the day number
    pub fn day(&self) -> (r: u8)
        ensures
            r == self@.day,
    {
        self.day
    }

    /// Returns the hour number
    pub fn hour(&self) -> (r: u8)
        ensures
            r == self@.hour,
    {
        self.hour
    }

    /// Returns the minute number
    pub fn minute(&self) -> (r: u8)
        ensures
            r == self@.minute,
    {
        self.minute
    }

    /// Returns the second number
    pub fn second(&self) -> (r: u8)
        ensures
            r == self@.second,
    {
        self.second
    }

    /// Returns the milliseconds of the second
    pub fn millis(&self) -> (r: u32)
        ensures
            r == self@.nanos / 1_000_000,
    {
        self.nanos / 1_000_000
    }

    /// Returns the nanoseconds number
    pub fn nanoseconds(&self) -> (r: u32)
        ensures
            r == self@.nanos,
    {
        self.nanos
    }

    /// Returns the original filetime since 1601
    pub fn filetime(&self) -> (r: u64)
        ensures
            r == self@.original,
    {
        self.original
    }

    /// The time from `earlier_nanos` to this filetime, both taken as counts
    /// of nanoseconds: `Ok` with the difference where this one is not the
    /// smaller, `Err` with the difference the other way round where it is.
    /// A difference that does not fit 64 bits is cut to its low 64 bits.
    pub fn duration_since(&self, earlier_nanos: u128) -> (r: Result<u64, u64>)
        ensures
            r == if earlier_nanos > self@.original * 100 {
                Err::<u64, u64>(((earlier_nanos - self@.original * 100) % 0x1_0000_0000_0000_0000) as u64)
            } else {
                Ok::<u64, u64>(((self@.original * 100 - earlier_nanos) % 0x1_0000_0000_0000_0000) as u64)
            },
    {
        let self_nanos: u128 = (self.original as u128) * 100;
        if earlier_nanos > self_nanos {
            let diff: u128 = earlier_nanos - self_nanos;
            return Err((diff % 0x1_0000_0000_0000_0000) as u64);
        }
        let diff: u128 = self_nanos - earlier_nanos;
        Ok((diff % 0x1_0000_0000_0000_0000) as u64)
    }

    /// The date as text, with the milliseconds where the fraction of the
    /// second is not zero.
    pub fn to_string(&self) -> (s: String)
        ensures
            s@ == date_text(
                DateTime {
                    year: self@.year as int,
                    month: self@.month as int,
                    day: self@.day as int,
                    hour: self@.hour as int,
                    minute: self@.minute as int,
                    second: self@.second as int,
                    fraction: self@.nanos as int,
                },
                shown_millis(self@.nanos as int, 1_000_000),
            ),
    {
        let p = Parts {
            year: self.year as u128,
            month: self.month as u128,
            day: self.day as u128,
            hour: self.hour as u128,
            minute: self.minute as u128,
            second: self.second as u128,
            fraction: self.nanos as u128,
        };
        let millis = if self.nanos == 0 {
            None
        } else {
            Some((self.nanos / 1_000_000) as u64)
        };
        write_date(&p, millis)
    }
}

/// Converts a Windows filetime to unix timestamp in milliseconds
pub fn filetime_to_unix_timestamp(filetime: u64) -> (r: u64)
    ensures
        r == unix_millis_of_filetime(filetime),
{
    let millis: u64 = if filetime % 10_000 == 0 {
        filetime / 10_000
    } else {
        filetime / 10_000 + 1
    };
    if millis >= 11_644_473_600_000 {
        millis - 11_644_473_600_000
    } else {
        0
    }
}

impl WinFiletime {
    /// The first filetime: the start of 1601.
    pub fn new() -> (r: Self)
        ensures
            r.0 == 0,
    {
        WinFiletime(0)
    }

    /// Returns the year number
    pub fn year(&self) -> (r: u32)
        ensures
            r == win_date(self.0).year,
    {
        date_from_millis(1601, (self.0 as u128) / 10_000).year as u32
    }

    /// Returns the month number starting from 1
    pub fn month(&self) -> (r: u32)
        ensures
            r == win_date(self.0).month,
    {
        date_from_millis(1601, (self.0 as u128) / 10_000).month as u32
    }

    /// Returns the day of month starting from 1
    pub fn day(&self) -> (r: u32)
        ensures
            r == win_date(self.0).day,
    {
        date_from_millis(1601, (self.0 as u128) / 10_000).day as u32
    }

    /// Returns the hour number from 0 to 23.
    pub fn hour(&self) -> (r: u32)
        ensures
            r == win_date(self.0).hour,
    {
        date_from_millis(1601, (self.0 as u128) / 10_000).hour as u32
    }

    /// Returns the minute number from 0 to 59.
    pub fn minute(&self) -> (r: u32)
        ensures
            r == win_date(self.0).minute,
    {
        date_from_millis(1601, (self.0 as u128) / 10_000).minute as u32
    }

    /// Returns the second number from 0 to 59.
    pub fn second(&self) -> (r: u32)
        ensures
            r == win_date(self.0).second,
    {
        date_from_millis(1601, (self.0 as u128) / 10_000).second as u32
    }

    /// Obtain the millisecond part
    pub fn milliseconds(&self) -> (r: u32)
        ensures
            r == win_date(self.0).fraction,
    {
        date_from_millis(1601, (self.0 as u128) / 10_000).fraction as u32
    }

    /// The date as text, with the milliseconds where they are not zero.
    pub fn to_string(&self) -> (s: String)
        ensures
            s@ == date_text(win_date(self.0), shown_millis(win_date(self.0).fraction, 1)),
    {
        let p = date_from_millis(1601, (self.0 as u128) / 10_000);
        let millis = if p.fraction == 0 {
            None
        } else {
            Some(p.fraction as u64)
        };
        write_date(&p, millis)
    }
}

impl UnixTimestamp {
    /// The date as text, with the milliseconds where they are not zero.
    pub fn to_string(&self) -> (s: String)
        ensures
            s@ == date_text(unix_date(self.0), shown_millis(unix_date(self.0).fraction, 1)),
    {
        let p = date_from_millis(1970, self.0 as u128);
        let millis = if p.fraction == 0 {
            None
        } else {
            Some(p.fraction as u64)
        };
        write_date(&p, millis)
    }
}

impl Default for Filetime {
    /// A filetime of which every field is zero.
    fn default() -> (r: Self)
        ensures
            r@ == (FiletimeView {
                original: 0,
                year: 0,
                month: 0,
                day: 0,
                hour: 0,
                minute: 0,
                second: 0,
                nanos: 0,
            }),
    {
        Filetime { original: 0, year: 0, month: 0, day: 0, hour: 0, minute: 0, second: 0, nanos: 0 }
    }
}

impl Default for WinFiletime {
    fn default() -> (r: Self)
        ensures
            r.0 == 0,
    {
        WinFiletime(0)
    }
}

impl Default for UnixTimestamp {
    fn default() -> (r: Self)
        ensures
            r.0 == 0,
    {
        UnixTimestamp(0)
    }
}

impl From<u64> for WinFiletime {
    fn from(value: u64) -> (r: Self) {
        WinFiletime(value)
    }
}

impl FromSpecImpl<u64> for WinFiletime {
    open spec fn obeys_from_spec() -> bool {
        true
    }

    open spec fn from_spec(value: u64) -> Self {
        WinFiletime(value)
    }
}

impl From<u64> for UnixTimestamp {
    fn from(value: u64) -> (r: Self) {
        UnixTimestamp(value)
    }
}

impl FromSpecImpl<u64> for UnixTimestamp {
    open spec fn obeys_from_spec() -> bool {
        true
    }

    open spec fn from_spec(value: u64) -> Self {
        UnixTimestamp(value)
    }
}

impl PartialEq for Filetime {
    fn eq(&self, other: &Self) -> (r: bool) {
        self.original == other.original
    }
}

impl PartialEqSpecImpl for Filetime {
    open spec fn obeys_eq_spec() -> bool {
        true
    }

    /// Two filetimes are equal where they count the same time.
    open spec fn eq_spec(&self, other: &Self) -> bool {
        self@.original == other@.original
    }
}

impl PartialOrd for Filetime {
    fn partial_cmp(&self, other: &Self) -> (r: Option<Ordering>) {
        if self.original < other.original {
            Some(Ordering::Less)
        } else if self.original == other.original {
            Some(Ordering::Equal)
        } else {
            Some(Ordering::Greater)
        }
    }
}

impl PartialOrdSpecImpl for Filetime {
    open spec fn obeys_partial_cmp_spec() -> bool {
        true
    }

    /// Filetimes are ordered by the time they count.
    open spec fn partial_cmp_spec(&self, other: &Self) -> Option<Ordering> {
        if self@.original < other@.original {
            Some(Ordering::Less)
        } else if self@.original == other@.original {
            Some(Ordering::Equal)
        } else {
            Some(Ordering::Greater)
        }
    }
}

impl Filetime {
    /// The filetime that lies `nanos` nanoseconds after this one, to the
    /// last whole unit of 100 nanoseconds. The count is kept to its low 64
    /// bits.
    pub fn add_nanos(self, nanos: u128) -> (r: Self)
        ensures
            r@ == filetime_fields(
                (((self@.original * 100 + nanos) / 100) % 0x1_0000_0000_0000_0000) as u64,
            ),
    {
        let units: u128 = (self.original as u128) + nanos / 100;
        assert((self@.original * 100 + nanos) / 100 == self@.original + nanos / 100) by (nonlinear_arith);
        Filetime::new((units % 0x1_0000_0000_0000_0000) as u64)
    }

    /// The filetime that lies `nanos` nanoseconds before this one, to the
    /// last whole unit of 100 nanoseconds.
    pub fn sub_nanos(self, nanos: u128) -> (r: Self)
        requires
            nanos <= self@.original * 100,
        ensures
            r@ == filetime_fields(((self@.original * 100 - nanos) / 100) as u64),
    {
        Filetime::new((((self.original as u128) * 100 - nanos) / 100) as u64)
    }
}

} // verus!
