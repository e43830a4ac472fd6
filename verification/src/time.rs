//! Instants, durations and calendar arithmetic.
//!
//! An [`Epoch`] is a count of nanoseconds since the reference date of its
//! [`TimeScale`]: week zero for the satellite time scales, 1900-01-01 for
//! UTC.  Week/time-of-week splitting and the Gregorian calendar are plain
//! integer arithmetic and are verified here; only the conversion between two
//! time scales (which needs the leap-second tables) is delegated.

use vstd::prelude::*;

verus! {

/// Nanoseconds in one second.
pub const NANOS_PER_SEC: u64 = 1_000_000_000;

/// Nanoseconds in one minute.
pub const NANOS_PER_MIN: u64 = 60_000_000_000;

/// Nanoseconds in one hour.
pub const NANOS_PER_HOUR: u64 = 3_600_000_000_000;

/// Nanoseconds in one day.
pub const NANOS_PER_DAY: u64 = 86_400_000_000_000;

/// Nanoseconds in one week.
pub const NANOS_PER_WEEK: u64 = 604_800_000_000_000;

/// Time scales supported for collection and output.
#[derive(Debug, Clone, Copy, PartialEq, Eq, Structural)]
pub enum TimeScale {
    /// GPS time, counted from week zero, 1980-01-06.
    Gpst,
    /// Galileo time, counted from week zero, 1999-08-22.
    Gst,
    /// BeiDou time, counted from week zero, 2006-01-01.
    Bdt,
    /// Coordinated universal time, counted from 1900-01-01.
    Utc,
}

/// A non-negative span of time in nanoseconds.
#[derive(Debug, Clone, Copy, PartialEq, Eq, Structural)]
pub struct Duration {
    pub nanos: u64,
}

impl Duration {
    /// A zero-length span.
    pub fn zero() -> (r: Duration)
        ensures
            r.nanos == 0,
    {
        Duration { nanos: 0 }
    }

    /// Builds a span from whole seconds.
    pub fn from_seconds(seconds: u64) -> (r: Duration)
        requires
            seconds * NANOS_PER_SEC <= u64::MAX,
        ensures
            r.nanos == seconds * NANOS_PER_SEC,
    {
        Duration { nanos: seconds * NANOS_PER_SEC }
    }

    /// Builds a span from whole days.
    pub fn from_days(days: u64) -> (r: Duration)
        requires
            days * NANOS_PER_DAY <= u64::MAX,
        ensures
            r.nanos == days * NANOS_PER_DAY,
    {
        Duration { nanos: days * NANOS_PER_DAY }
    }
}

/// An instant, as elapsed nanoseconds since its scale's reference date.
#[derive(Debug, Clone, Copy, PartialEq, Eq, Structural)]
pub struct Epoch {
    pub nanos: u64,
    pub scale: TimeScale,
}

/// Numeric tag of a time scale, used to state time-scale conversions.
pub open spec fn scale_id(scale: TimeScale) -> int {
    match scale {
        TimeScale::Gpst => 0,
        TimeScale::Gst => 1,
        TimeScale::Bdt => 2,
        TimeScale::Utc => 3,
    }
}

/// The instant `nanos` of scale `from`, re-expressed as elapsed nanoseconds
/// in scale `to` (clamped at zero when it precedes that scale's reference).
/// The scales are given by their [`scale_id`] tags.
pub uninterp spec fn to_scale_of(nanos: u64, from: int, to: int) -> u64;

/// Offset, in nanoseconds, between a scale's reference date and the
/// 1900-01-01 origin of the civil calendar used for display: the span that
/// separates 1900-01-01 00:00:00 TAI from the scale's reference epoch,
/// with its seconds-of-minute part (the accumulated leap seconds) dropped.
pub open spec fn spec_calendar_offset(scale: TimeScale) -> int {
    match scale {
        TimeScale::Gpst => 2_524_953_600_000_000_000,
        TimeScale::Gst => 3_144_268_800_000_000_000,
        TimeScale::Bdt => 3_345_062_400_000_000_000,
        TimeScale::Utc => 0,
    }
}

/// Relies on hifitime's `Epoch::to_time_scale` (via
/// `to_duration_in_time_scale`), which re-expresses an instant in another
/// time scale from its built-in leap-second tables; the result depends on the
/// arguments alone.  An instant earlier than the target scale's reference is
/// clamped to zero.  Converting a scale to itself returns the count unchanged,
/// as `to_time_scale` returns a copy of the epoch in that case.
#[verifier::external_body]
fn convert_nanos(nanos: u64, from: TimeScale, to: TimeScale) -> (r: u64)
    ensures
        r == to_scale_of(nanos, scale_id(from), scale_id(to)),
        from == to ==> r == nanos,
{
    let f = match from {
        TimeScale::Gpst => hifitime::TimeScale::GPST,
        TimeScale::Gst => hifitime::TimeScale::GST,
        TimeScale::Bdt => hifitime::TimeScale::BDT,
        TimeScale::Utc => hifitime::TimeScale::UTC,
    };
    let t = match to {
        TimeScale::Gpst => hifitime::TimeScale::GPST,
        TimeScale::Gst => hifitime::TimeScale::GST,
        TimeScale::Bdt => hifitime::TimeScale::BDT,
        TimeScale::Utc => hifitime::TimeScale::UTC,
    };
    let d = hifitime::Duration::from_total_nanoseconds(nanos as i128);
    let out = hifitime::Epoch::from_duration(d, f).to_duration_in_time_scale(t).total_nanoseconds();
    if out < 0 { 0 } else { out as u64 }
}

/// Whether `y` is a leap year of the Gregorian calendar.
pub open spec fn is_leap_year(y: int) -> bool {
    (y % 4 == 0 && y % 100 != 0) || y % 400 == 0
}

/// Number of days in year `y`.
pub open spec fn days_in_year(y: int) -> int {
    if is_leap_year(y) {
        366
    } else {
        365
    }
}

/// Number of days from 1900-01-01 to the first day of year `y`.
pub open spec fn days_from_1900(y: int) -> int
    decreases y,
{
    if y <= 1900 {
        0
    } else {
        days_from_1900(y - 1) + days_in_year(y - 1)
    }
}

/// Number of days in month `m` (1-based) of year `y`.
pub open spec fn days_in_month(y: int, m: int) -> int {
    if m == 2 {
        if is_leap_year(y) {
            29
        } else {
            28
        }
    } else if m == 4 || m == 6 || m == 9 || m == 11 {
        30
    } else {
        31
    }
}

/// Number of days from the first day of year `y` to the first day of its
/// month `m` (1-based).
pub open spec fn days_before_month(y: int, m: int) -> int
    decreases m,
{
    if m <= 1 {
        0
    } else {
        days_before_month(y, m - 1) + days_in_month(y, m - 1)
    }
}

/// The day count to a year's first day grows between 365 and 366 days per
/// year.
proof fn lemma_days_from_1900_bounds(y: int)
    requires
        1900 <= y,
    ensures
        365 * (y - 1900) <= days_from_1900(y) <= 366 * (y - 1900),
    decreases y,
{
    if y > 1900 {
        lemma_days_from_1900_bounds(y - 1);
    }
}

/// The twelve months exactly fill the year.
proof fn lemma_months_fill_year(y: int)
    ensures
        days_before_month(y, 13) == days_in_year(y),
{
    reveal_with_fuel(days_before_month, 13);
}

/// The day count to a year's first day is strictly increasing in the year.
proof fn lemma_days_from_1900_increasing(y1: int, y2: int)
    requires
        1900 <= y1 <= y2,
    ensures
        days_from_1900(y1) <= days_from_1900(y2),
        y1 < y2 ==> days_from_1900(y1) + days_in_year(y1) <= days_from_1900(y2),
    decreases y2,
{
    if y1 < y2 {
        lemma_days_from_1900_increasing(y1, y2 - 1);
    }
}

/// The day count to a month's first day is strictly increasing in the month.
proof fn lemma_days_before_month_increasing(y: int, m1: int, m2: int)
    requires
        1 <= m1 <= m2,
    ensures
        days_before_month(y, m1) <= days_before_month(y, m2),
        m1 < m2 ==> days_before_month(y, m1) + days_in_month(y, m1) <= days_before_month(y, m2),
    decreases m2,
{
    if m1 < m2 {
        lemma_days_before_month_increasing(y, m1, m2 - 1);
    }
}

/// A Gregorian calendar date and time of day.
#[derive(Debug, Clone, Copy, PartialEq, Eq, Structural)]
pub struct CivilDate {
    pub year: u32,
    /// 1-based month.
    pub month: u8,
    /// 1-based day of the month.
    pub day: u8,
    /// 1-based day of the year.
    pub day_of_year: u16,
    pub hour: u8,
    pub minute: u8,
    pub second: u8,
    pub nanos: u32,
}

/// Total nanoseconds from 1900-01-01 00:00:00 to the given date and time of
/// day.
pub open spec fn spec_civil_nanos(
    year: int,
    month: int,
    day: int,
    hour: int,
    minute: int,
    second: int,
    nanos: int,
) -> int {
    (days_from_1900(year) + days_before_month(year, month) + day - 1) * NANOS_PER_DAY + hour
        * NANOS_PER_HOUR + minute * NANOS_PER_MIN + second * NANOS_PER_SEC + nanos
}

/// `c` is the date and time of day `total` nanoseconds after
/// 1900-01-01 00:00:00.
pub open spec fn civil_of(total: int, c: CivilDate) -> bool {
    let days = total / (NANOS_PER_DAY as int);
    let rem = total % (NANOS_PER_DAY as int);
    &&& 1900 <= c.year
    &&& 1 <= c.month <= 12
    &&& 1 <= c.day <= days_in_month(c.year as int, c.month as int)
    &&& days == days_from_1900(c.year as int) + days_before_month(c.year as int, c.month as int)
        + c.day - 1
    &&& c.day_of_year == days - days_from_1900(c.year as int) + 1
    &&& c.hour == rem / (NANOS_PER_HOUR as int)
    &&& c.minute == rem % (NANOS_PER_HOUR as int) / (NANOS_PER_MIN as int)
    &&& c.second == rem % (NANOS_PER_MIN as int) / (NANOS_PER_SEC as int)
    &&& c.nanos == rem % (NANOS_PER_SEC as int)
}

/// A day offset within a month stays under the year's length.
proof fn lemma_offset_in_year(y: int, m: int, d: int)
    requires
        1 <= m <= 12,
        1 <= d <= days_in_month(y, m),
    ensures
        0 <= days_before_month(y, m) + d - 1 < days_in_year(y),
{
    lemma_days_before_month_increasing(y, 1, m);
    lemma_days_before_month_increasing(y, m, 12);
    lemma_months_fill_year(y);
}

/// An instant has exactly one calendar decomposition.
pub proof fn lemma_civil_unique(total: int, c1: CivilDate, c2: CivilDate)
    requires
        total >= 0,
        civil_of(total, c1),
        civil_of(total, c2),
    ensures
        c1 == c2,
{
    let days = total / (NANOS_PER_DAY as int);
    lemma_offset_in_year(c1.year as int, c1.month as int, c1.day as int);
    lemma_offset_in_year(c2.year as int, c2.month as int, c2.day as int);
    if c1.year < c2.year {
        lemma_days_from_1900_increasing(c1.year as int + 1, c2.year as int);
        lemma_days_from_1900_increasing(c1.year as int, c1.year as int + 1);
        assert(false);
    }
    if c2.year < c1.year {
        lemma_days_from_1900_increasing(c2.year as int + 1, c1.year as int);
        lemma_days_from_1900_increasing(c2.year as int, c2.year as int + 1);
        assert(false);
    }
    if c1.month < c2.month {
        lemma_days_before_month_increasing(c1.year as int, c1.month as int + 1, c2.month as int);
        assert(false);
    }
    if c2.month < c1.month {
        lemma_days_before_month_increasing(c1.year as int, c2.month as int + 1, c1.month as int);
        assert(false);
    }
}

/// Whether `y` is a leap year.
pub fn is_leap_year_x(y: u32) -> (r: bool)
    ensures
        r == is_leap_year(y as int),
{
    (y % 4 == 0 && y % 100 != 0) || y % 400 == 0
}

/// Number of days in year `y`.
pub fn days_in_year_x(y: u32) -> (r: u64)
    ensures
        r == days_in_year(y as int),
{
    if is_leap_year_x(y) {
        366
    } else {
        365
    }
}

/// Number of days in month `m` of year `y`.
pub fn days_in_month_x(y: u32, m: u8) -> (r: u64)
    ensures
        r == days_in_month(y as int, m as int),
{
    if m == 2 {
        if is_leap_year_x(y) {
            29
        } else {
            28
        }
    } else if m == 4 || m == 6 || m == 9 || m == 11 {
        30
    } else {
        31
    }
}

/// Splits a day count since 1900-01-01 into a year and the 0-based day
/// offset within that year.
fn year_from_days(days: u64) -> (r: (u32, u64))
    requires
        days <= 300_000_000,
    ensures
        1900 <= r.0,
        r.1 < days_in_year(r.0 as int),
        days == days_from_1900(r.0 as int) + r.1,
{
    let mut y: u32 = 1900;
    let mut d: u64 = days;
    loop
        invariant
            1900 <= y,
            days == days_from_1900(y as int) + d,
            365 * (y - 1900) <= days,
            days <= 300_000_000,
        ensures
            1900 <= y,
            d < days_in_year(y as int),
            days == days_from_1900(y as int) + d,
        decreases d,
    {
        let diy = days_in_year_x(y);
        if d < diy {
            break ;
        }
        d = d - diy;
        y = y + 1;
        proof {
            lemma_days_from_1900_bounds(y as int);
        }
    }
    (y, d)
}

/// Splits a 0-based day offset within year `y` into a 1-based month and a
/// 1-based day of the month.
fn month_from_day_of_year(y: u32, d0: u64) -> (r: (u8, u8))
    requires
        d0 < days_in_year(y as int),
    ensures
        1 <= r.0 <= 12,
        1 <= r.1 <= days_in_month(y as int, r.0 as int),
        d0 == days_before_month(y as int, r.0 as int) + r.1 - 1,
{
    let mut m: u8 = 1;
    let mut d: u64 = d0;
    loop
        invariant
            1 <= m <= 12,
            d0 == days_before_month(y as int, m as int) + d,
            d0 < days_in_year(y as int),
        ensures
            1 <= m <= 12,
            d < days_in_month(y as int, m as int),
            d0 == days_before_month(y as int, m as int) + d,
        decreases 12 - m,
    {
        let dim = days_in_month_x(y, m);
        if d < dim {
            break ;
        }
        proof {
            if m == 12 {
                lemma_months_fill_year(y as int);
            }
        }
        d = d - dim;
        m = m + 1;
    }
    (m, (d + 1) as u8)
}

/// Accumulated days from 1900-01-01 to the first day of year `year`.
fn days_from_1900_x(year: u32) -> (r: u64)
    requires
        1900 <= year,
    ensures
        r == days_from_1900(year as int),
        r <= 366 * (year - 1900),
{
    let mut y: u32 = 1900;
    let mut acc: u64 = 0;
    while y < year
        invariant
            1900 <= y <= year,
            acc == days_from_1900(y as int),
            acc <= 366 * (y - 1900),
        decreases year - y,
    {
        acc = acc + days_in_year_x(y);
        y = y + 1;
    }
    acc
}

/// Accumulated days from the first day of year `year` to the first day of
/// its month `month`.
fn days_before_month_x(year: u32, month: u8) -> (r: u64)
    requires
        1 <= month <= 12,
    ensures
        r == days_before_month(year as int, month as int),
        r <= 366,
{
    let mut m: u8 = 1;
    let mut acc: u64 = 0;
    while m < month
        invariant
            1 <= m <= month,
            acc == days_before_month(year as int, m as int),
            acc <= 31 * (m - 1),
        decreases month - m,
    {
        acc = acc + days_in_month_x(year, m);
        m = m + 1;
    }
    acc
}

impl Epoch {
    /// Builds an instant from an elapsed-week counter and the nanoseconds
    /// elapsed within that week, as satellite receivers report timestamps.
    pub fn from_time_of_week(week: u32, nanos: u64, scale: TimeScale) -> (r: Epoch)
        requires
            week * NANOS_PER_WEEK + nanos <= u64::MAX,
        ensures
            r.nanos == week * NANOS_PER_WEEK + nanos,
            r.scale == scale,
    {
        Epoch { nanos: (week as u64) * NANOS_PER_WEEK + nanos, scale }
    }

    /// Splits this instant into its rolling week counter and the nanoseconds
    /// elapsed in the current week.
    pub fn to_time_of_week(&self) -> (r: (u32, u64))
        requires
            self.nanos / NANOS_PER_WEEK <= u32::MAX,
        ensures
            r.0 == self.nanos / NANOS_PER_WEEK,
            r.1 == self.nanos % NANOS_PER_WEEK,
            r.0 * NANOS_PER_WEEK + r.1 == self.nanos,
    {
        let weeks = self.nanos / NANOS_PER_WEEK;
        (weeks as u32, self.nanos % NANOS_PER_WEEK)
    }

    /// Calendar date and time of day that this instant displays as, in its
    /// own time scale.
    pub fn to_gregorian(&self) -> (r: CivilDate)
        requires
            self.nanos + spec_calendar_offset(self.scale) <= u64::MAX,
        ensures
            civil_of(self.nanos + spec_calendar_offset(self.scale), r),
    {
        let offset: u64 = match self.scale {
            TimeScale::Gpst => 2_524_953_600_000_000_000,
            TimeScale::Gst => 3_144_268_800_000_000_000,
            TimeScale::Bdt => 3_345_062_400_000_000_000,
            TimeScale::Utc => 0,
        };
        let total: u64 = self.nanos + offset;
        let days: u64 = total / NANOS_PER_DAY;
        let rem: u64 = total % NANOS_PER_DAY;
        let (year, d0) = year_from_days(days);
        let (month, day) = month_from_day_of_year(year, d0);
        CivilDate {
            year,
            month,
            day,
            day_of_year: (d0 + 1) as u16,
            hour: (rem / NANOS_PER_HOUR) as u8,
            minute: (rem % NANOS_PER_HOUR / NANOS_PER_MIN) as u8,
            second: (rem % NANOS_PER_MIN / NANOS_PER_SEC) as u8,
            nanos: (rem % NANOS_PER_SEC) as u32,
        }
    }

    /// Builds the instant that displays, in the given scale, as the given
    /// calendar date and time of day.  The date must be a valid one, on or
    /// after the scale's reference date, and early enough for the elapsed
    /// nanoseconds to be countable.
    pub fn from_gregorian(
        year: u32,
        month: u8,
        day: u8,
        hour: u8,
        minute: u8,
        second: u8,
        nanos: u32,
        scale: TimeScale,
    ) -> (r: Epoch)
        requires
            1900 <= year,
            1 <= month <= 12,
            1 <= day <= days_in_month(year as int, month as int),
            hour < 24,
            minute < 60,
            second < 60,
            nanos < NANOS_PER_SEC,
            spec_calendar_offset(scale) <= spec_civil_nanos(
                year as int,
                month as int,
                day as int,
                hour as int,
                minute as int,
                second as int,
                nanos as int,
            ) <= spec_calendar_offset(scale) + u64::MAX,
        ensures
            r.scale == scale,
            r.nanos == spec_civil_nanos(
                year as int,
                month as int,
                day as int,
                hour as int,
                minute as int,
                second as int,
                nanos as int,
            ) - spec_calendar_offset(scale),
    {
        let offset: u64 = match scale {
            TimeScale::Gpst => 2_524_953_600_000_000_000,
            TimeScale::Gst => 3_144_268_800_000_000_000,
            TimeScale::Bdt => 3_345_062_400_000_000_000,
            TimeScale::Utc => 0,
        };
        let days: u64 = days_from_1900_x(year) + days_before_month_x(year, month) + (day
            - 1) as u64;
        let total: u128 = (days as u128) * (NANOS_PER_DAY as u128) + (hour as u128) * (
        NANOS_PER_HOUR as u128) + (minute as u128) * (NANOS_PER_MIN as u128) + (second as u128) * (
        NANOS_PER_SEC as u128) + (nanos as u128);
        Epoch { nanos: (total - offset as u128) as u64, scale }
    }

    /// Re-expresses this instant in another time scale.
    pub fn to_time_scale(&self, scale: TimeScale) -> (r: Epoch)
        ensures
            r.scale == scale,
            r.nanos == to_scale_of(self.nanos, scale_id(self.scale), scale_id(scale)),
            self.scale == scale ==> r.nanos == self.nanos,
    {
        Epoch { nanos: convert_nanos(self.nanos, self.scale, scale), scale }
    }
}

} // verus!
