use vstd::prelude::*;

verus! {

/// A calendar date.
#[derive(Clone, Copy, Debug, PartialEq, Eq, Structural)]
pub struct CivilDate {
    pub year: i64,
    pub month: u8,
    pub day: u8,
}

/// A calendar date with a wall-clock time to the millisecond.
#[derive(Clone, Copy, Debug, PartialEq, Eq, Structural)]
pub struct CivilDateTime {
    pub year: i64,
    pub month: u8,
    pub day: u8,
    pub hour: u8,
    pub minute: u8,
    pub second: u8,
    pub millisecond: u16,
}

impl CivilDate {
    /// Each component lies in its calendar range (and the year within a
    /// billion years of year zero).
    pub open spec fn in_range(self) -> bool {
        &&& -1_000_000_000 <= self.year <= 1_000_000_000
        &&& 1 <= self.month <= 12
        &&& 1 <= self.day <= 31
    }
}

impl CivilDateTime {
    /// Each component lies in its calendar or clock range (and the year
    /// within a billion years of year zero).
    pub open spec fn in_range(self) -> bool {
        &&& self.date().in_range()
        &&& self.hour <= 23
        &&& self.minute <= 59
        &&& self.second <= 59
        &&& self.millisecond <= 999
    }

    pub open spec fn date(self) -> CivilDate {
        CivilDate { year: self.year, month: self.month, day: self.day }
    }
}

/// Whether `y` is a leap year of the proleptic Gregorian calendar.
pub open spec fn is_leap_year(y: int) -> bool {
    (y % 4 == 0 && y % 100 != 0) || y % 400 == 0
}

/// The number of days in month `m` of year `y`.
pub open spec fn days_in_month(y: int, m: int) -> int {
    if m == 2 {
        if is_leap_year(y) { 29 } else { 28 }
    } else if m == 4 || m == 6 || m == 9 || m == 11 {
        30
    } else {
        31
    }
}

/// The number of days in year `y` before the first of month `m`.
pub open spec fn days_before_month(y: int, m: int) -> int {
    let before = if m == 1 { 0int } else if m == 2 { 31 } else if m == 3 { 59 } else if m == 4 { 90 }
        else if m == 5 { 120 } else if m == 6 { 151 } else if m == 7 { 181 } else if m == 8 { 212 }
        else if m == 9 { 243 } else if m == 10 { 273 } else if m == 11 { 304 } else { 334 };
    before + if m > 2 && is_leap_year(y) { 1int } else { 0int }
}

/// The number of days from 0000-01-01 to the first of January of year `y`:
/// 365 a year, plus one for each leap year in between (negative before
/// year zero).
pub open spec fn days_before_year(y: int) -> int {
    365 * y + (y + 3) / 4 - (y + 99) / 100 + (y + 399) / 400
}

/// Whether `(y, m, d)` is a date of the proleptic Gregorian calendar.
pub open spec fn valid_date(y: int, m: int, d: int) -> bool {
    1 <= m <= 12 && 1 <= d <= days_in_month(y, m)
}

/// The number of days from 1970-01-01 to the date `(y, m, d)` (negative
/// before it).
pub open spec fn days_from_civil(y: int, m: int, d: int) -> int {
    days_before_year(y) + days_before_month(y, m) + d - 1 - days_before_year(1970)
}

/// The `(year, month, day)` of the day `days` days after 1970-01-01
/// (before it when negative), computed by eras of 400 years.
spec fn civil_from_days(days: int) -> (int, int, int) {
    let z = days + 719468;
    let era = z / 146097;
    let doe = z - era * 146097;
    let yoe = (doe - doe / 1460 + doe / 36524 - doe / 146096) / 365;
    let doy = doe - (365 * yoe + yoe / 4 - yoe / 100);
    let mp = (5 * doy + 2) / 153;
    let d = doy - (153 * mp + 2) / 5 + 1;
    let m = if mp < 10 { mp + 3 } else { mp - 9 };
    let y = yoe + era * 400 + if m <= 2 { 1int } else { 0int };
    (y, m, d)
}

/// The UTC date and time of the instant `ms` milliseconds after the Unix
/// epoch (before it when negative), without leap seconds.
pub open spec fn utc_datetime_of(ms: int) -> CivilDateTime {
    let secs = ms / 1000;
    let days = secs / 86400;
    let sod = secs % 86400;
    let c = date_of_day(days);
    CivilDateTime {
        year: c.0 as i64,
        month: c.1 as u8,
        day: c.2 as u8,
        hour: (sod / 3600) as u8,
        minute: ((sod % 3600) / 60) as u8,
        second: (sod % 60) as u8,
        millisecond: (ms % 1000) as u16,
    }
}

/// Each year has 365 days, and one more when it is a leap year.
pub proof fn lemma_year_length(y: int)
    ensures
        days_before_year(0) == 0,
        days_before_year(y + 1) == days_before_year(y) + 365 + if is_leap_year(y) { 1int } else { 0int },
{
}

proof fn lemma_era_shift(y: int, e: int)
    ensures
        days_before_year(y + 400 * e) == days_before_year(y) + 146097 * e,
        is_leap_year(y + 400 * e) == is_leap_year(y),
{
    vstd::arithmetic::div_mod::lemma_hoist_over_denominator(y + 3, 100 * e, 4);
    vstd::arithmetic::div_mod::lemma_hoist_over_denominator(y + 99, 4 * e, 100);
    vstd::arithmetic::div_mod::lemma_hoist_over_denominator(y + 399, e, 400);
    vstd::arithmetic::div_mod::lemma_mod_multiples_vanish(100 * e, y, 4);
    vstd::arithmetic::div_mod::lemma_mod_multiples_vanish(4 * e, y, 100);
    vstd::arithmetic::div_mod::lemma_mod_multiples_vanish(e, y, 400);
    assert(y + 3 + 100 * e * 4 == y + 400 * e + 3);
    assert(y + 99 + 4 * e * 100 == y + 400 * e + 99);
    assert(y + 399 + e * 400 == y + 400 * e + 399);
    assert(4 * (100 * e) + y == y + 400 * e);
    assert(100 * (4 * e) + y == y + 400 * e);
    assert(400 * e + y == y + 400 * e);
}

/// Within an era: the day of the era `doe` falls in the March-based year
/// `yoe`, whose length is 366 days when the following year is a leap year.
#[verifier::rlimit(100)]
proof fn lemma_year_of_era(doe: int)
    requires
        0 <= doe < 146097,
    ensures
        ({
            let yoe = (doe - doe / 1460 + doe / 36524 - doe / 146096) / 365;
            let doy = doe - (365 * yoe + yoe / 4 - yoe / 100);
            &&& 0 <= yoe <= 399
            &&& 0 <= doy
            &&& doy <= 364 + if is_leap_year(yoe + 1) { 1int } else { 0int }
        }),
{
}

proof fn lemma_days_before_year_in_era(y: int)
    requires
        0 <= y <= 399,
    ensures
        days_before_year(y) + (if is_leap_year(y) { 1int } else { 0int }) == 365 * y + y / 4 - y / 100 + 1,
{
}

#[verifier::rlimit(100)]
proof fn lemma_civil_within_era(doe: int)
    requires
        0 <= doe < 146097,
    ensures
        ({
            let c = civil_from_days(doe - 719468);
            &&& valid_date(c.0, c.1, c.2)
            &&& days_before_year(c.0) + days_before_month(c.0, c.1) + c.2 - 1 == doe + 60
        }),
{
    lemma_year_of_era(doe);
    let yoe = (doe - doe / 1460 + doe / 36524 - doe / 146096) / 365;
    let doy = doe - (365 * yoe + yoe / 4 - yoe / 100);
    let mp = (5 * doy + 2) / 153;
    let d = doy - (153 * mp + 2) / 5 + 1;
    lemma_days_before_year_in_era(yoe);
    lemma_year_length(yoe);
    assert(doe - 719468 + 719468 == doe);
    assert(doe / 146097 == 0);
    let c = civil_from_days(doe - 719468);
    assert(c.1 == if mp < 10 { mp + 3 } else { mp - 9 });
    assert(c.2 == d);
    assert(c.0 == yoe + if c.1 <= 2 { 1int } else { 0int });
}

/// `civil_from_days(n)` is a date of the calendar, and it lies `n` days
/// after 1970-01-01.
proof fn lemma_civil_from_days_inverts(n: int)
    ensures
        valid_date(civil_from_days(n).0, civil_from_days(n).1, civil_from_days(n).2),
        days_from_civil(civil_from_days(n).0, civil_from_days(n).1, civil_from_days(n).2) == n,
{
    let z = n + 719468;
    let era = z / 146097;
    let doe = z - era * 146097;
    lemma_civil_within_era(doe);
    let c0 = civil_from_days(doe - 719468);
    assert((doe - 719468) + 719468 == doe);
    assert(doe / 146097 == 0);
    let c = civil_from_days(n);
    assert(c.1 == c0.1 && c.2 == c0.2);
    assert(c.0 == c0.0 + 400 * era);
    lemma_era_shift(c0.0, era);
    assert(days_before_year(1970) == 719528);
}

proof fn lemma_day_of_year(y: int, m: int, d: int)
    requires
        valid_date(y, m, d),
    ensures
        0 <= days_before_month(y, m) + d - 1 < 365 + if is_leap_year(y) { 1int } else { 0int },
{
}

proof fn lemma_days_before_year_grows(a: int, b: int)
    requires
        a < b,
    ensures
        days_before_year(a) + 365 + (if is_leap_year(a) { 1int } else { 0int }) <= days_before_year(b),
{
    lemma_year_length(a);
    assert(days_before_year(a + 1) <= days_before_year(b));
}

proof fn lemma_months_ordered(y: int, m1: int, d1: int, m2: int, d2: int)
    requires
        valid_date(y, m1, d1),
        valid_date(y, m2, d2),
        m1 < m2,
    ensures
        days_before_month(y, m1) + d1 < days_before_month(y, m2) + d2,
{
}

/// Distinct dates of the calendar lie a distinct number of days from
/// 1970-01-01.
pub proof fn lemma_days_from_civil_injective(y1: int, m1: int, d1: int, y2: int, m2: int, d2: int)
    requires
        valid_date(y1, m1, d1),
        valid_date(y2, m2, d2),
        days_from_civil(y1, m1, d1) == days_from_civil(y2, m2, d2),
    ensures
        y1 == y2 && m1 == m2 && d1 == d2,
{
    lemma_day_of_year(y1, m1, d1);
    lemma_day_of_year(y2, m2, d2);
    if y1 < y2 {
        lemma_days_before_year_grows(y1, y2);
    } else if y2 < y1 {
        lemma_days_before_year_grows(y2, y1);
    }
    if m1 < m2 {
        lemma_months_ordered(y1, m1, d1, m2, d2);
    } else if m2 < m1 {
        lemma_months_ordered(y1, m2, d2, m1, d1);
    }
}

/// The date of the calendar that lies `days` days after 1970-01-01.
pub open spec fn date_of_day(days: int) -> (int, int, int) {
    choose|c: (int, int, int)| valid_date(c.0, c.1, c.2) && days_from_civil(c.0, c.1, c.2) == days
}

/// `date_of_day(days)` is a date of the calendar, and it lies `days` days
/// after 1970-01-01.
pub proof fn lemma_date_of_day(days: int)
    ensures
        valid_date(date_of_day(days).0, date_of_day(days).1, date_of_day(days).2),
        days_from_civil(date_of_day(days).0, date_of_day(days).1, date_of_day(days).2) == days,
{
    lemma_civil_from_days_is_date_of_day(days);
    lemma_civil_from_days_inverts(days);
}

/// The era computation gives the one date that lies `days` days after
/// 1970-01-01.
proof fn lemma_civil_from_days_is_date_of_day(days: int)
    ensures
        civil_from_days(days) == date_of_day(days),
{
    lemma_civil_from_days_inverts(days);
    let c = civil_from_days(days);
    assert(valid_date(c.0, c.1, c.2) && days_from_civil(c.0, c.1, c.2) == days);
    let e = date_of_day(days);
    lemma_days_from_civil_injective(c.0, c.1, c.2, e.0, e.1, e.2);
}

proof fn lemma_civil_ranges(days: int)
    requires
        -200_000_000_000 <= days <= 200_000_000_000,
    ensures
        1 <= civil_from_days(days).1 <= 12,
        1 <= civil_from_days(days).2 <= 31,
        -1_000_000_000 <= civil_from_days(days).0 <= 1_000_000_000,
{
    let z = days + 719468;
    let era = z / 146097;
    let doe = z - era * 146097;
    assert(0 <= doe < 146097);
    let yoe = (doe - doe / 1460 + doe / 36524 - doe / 146096) / 365;
    assert(0 <= yoe <= 399);
    let doy = doe - (365 * yoe + yoe / 4 - yoe / 100);
    assert(0 <= doy <= 365);
    let mp = (5 * doy + 2) / 153;
    assert(0 <= mp <= 11);
    let d = doy - (153 * mp + 2) / 5 + 1;
    assert(1 <= d <= 31);
}

/// The UTC date and time of any instant that an `i64` of milliseconds can
/// hold is in range.
pub proof fn lemma_utc_datetime_in_range(ms: int)
    requires
        i64::MIN <= ms <= i64::MAX,
    ensures
        utc_datetime_of(ms).in_range(),
{
    let secs = ms / 1000;
    let days = secs / 86400;
    lemma_civil_ranges(days);
    lemma_civil_from_days_is_date_of_day(days);
}

fn civil_from_days_exec(days: i64) -> (r: (i64, u8, u8))
    requires
        -200_000_000_000 <= days <= 200_000_000_000,
    ensures
        r.0 == civil_from_days(days as int).0,
        r.1 == civil_from_days(days as int).1,
        r.2 == civil_from_days(days as int).2,
{
    proof {
        lemma_civil_ranges(days as int);
    }
    let z = days + 719468;
    let era = match z.checked_div_euclid(146097) {
        Some(q) => q,
        None => 0,
    };
    let doe = z - era * 146097;
    let yoe = (doe - doe / 1460 + doe / 36524 - doe / 146096) / 365;
    let doy = doe - (365 * yoe + yoe / 4 - yoe / 100);
    let mp = (5 * doy + 2) / 153;
    let d = doy - (153 * mp + 2) / 5 + 1;
    let m = if mp < 10 { mp + 3 } else { mp - 9 };
    let y = yoe + era * 400 + if m <= 2 { 1 } else { 0 };
    (y, m as u8, d as u8)
}

/// The UTC date and time of the instant `ms` milliseconds after the Unix
/// epoch.
pub fn utc_datetime(ms: i64) -> (t: CivilDateTime)
    ensures
        t == utc_datetime_of(ms as int),
        t.in_range(),
{
    proof {
        lemma_utc_datetime_in_range(ms as int);
    }
    let secs = match ms.checked_div_euclid(1000) {
        Some(q) => q,
        None => 0,
    };
    let millisecond = match ms.checked_rem_euclid(1000) {
        Some(r) => r,
        None => 0,
    };
    let days = match secs.checked_div_euclid(86400) {
        Some(q) => q,
        None => 0,
    };
    let sod = match secs.checked_rem_euclid(86400) {
        Some(r) => r,
        None => 0,
    };
    let (year, month, day) = civil_from_days_exec(days);
    proof {
        lemma_civil_from_days_is_date_of_day(days as int);
    }
    CivilDateTime {
        year,
        month,
        day,
        hour: (sod / 3600) as u8,
        minute: ((sod % 3600) / 60) as u8,
        second: (sod % 60) as u8,
        millisecond: millisecond as u16,
    }
}

} // verus!
