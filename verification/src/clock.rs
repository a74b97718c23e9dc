use vstd::prelude::*;
use crate::calendar::{utc_datetime, utc_datetime_of, CivilDate, CivilDateTime};
use crate::text::{decimal, pad2, pad3, pad4, push_char, push_decimal, push_pad2, push_pad3, push_pad4};
use jiff::tz::TimeZone;
use jiff::Timestamp;

verus! {

broadcast use vstd::string::group_string_axioms;

#[verifier::external_type_specification]
#[verifier::external_body]
pub struct ExTimeZone(jiff::tz::TimeZone);

/// The earliest instant, in milliseconds since the Unix epoch, that jiff
/// can turn into a civil date and time.
pub const TIMESTAMP_MIN_MS: i64 = -377705023201000;

/// The latest instant, in milliseconds since the Unix epoch, that jiff can
/// turn into a civil date and time.
pub const TIMESTAMP_MAX_MS: i64 = 253402207200000;

/// Whether jiff can represent the instant `ms` milliseconds after the epoch.
pub open spec fn representable(ms: i64) -> bool {
    TIMESTAMP_MIN_MS <= ms <= TIMESTAMP_MAX_MS
}

/// The digits of a year's magnitude: at least four, with leading zeros.
pub open spec fn year_digits(n: int) -> Seq<char> {
    if n < 10000 {
        pad4(n)
    } else {
        decimal(n)
    }
}

/// The year with at least four digits, and a leading `-` before year zero.
pub open spec fn year_text(y: int) -> Seq<char> {
    if y < 0 {
        seq!['-'] + year_digits(-y)
    } else {
        year_digits(y)
    }
}

/// `YYYY-MM-DD`.
pub open spec fn date_text(d: CivilDate) -> Seq<char> {
    year_text(d.year as int) + seq!['-'] + pad2(d.month as int) + seq!['-'] + pad2(d.day as int)
}

/// `YYYY-MM-DDTHH:MM:SS.mmmZ`, the RFC 3339 form of a UTC datetime with
/// milliseconds.
pub open spec fn timestamp_text(t: CivilDateTime) -> Seq<char> {
    date_text(t.date()) + seq!['T'] + pad2(t.hour as int) + seq![':'] + pad2(t.minute as int)
        + seq![':'] + pad2(t.second as int) + seq!['.'] + pad3(t.millisecond as int) + seq!['Z']
}

/// The UTC date of the instant `ms` shifted by `shift` seconds.
pub open spec fn shifted_date(ms: int, shift: int) -> CivilDate {
    utc_datetime_of(ms + shift * 1000).date()
}

/// `d` is the UTC date of the instant `ms` shifted by a time zone offset
/// that jiff supports (at most 25:59:59, that is 93599 seconds, either way).
pub open spec fn near_utc_date(ms: int, d: CivilDate) -> bool {
    exists|shift: int| -93599 <= shift <= 93599 && d == #[trigger] shifted_date(ms, shift)
}

/// The calendar date of an instant in the given time zone, with jiff
/// (`Timestamp::from_millisecond`, then `Timestamp::to_zoned`). Claimed:
/// present exactly when `ms` lies within jiff's timestamp range (jiff
/// documents that as the only error); each component lies in jiff's
/// documented range; and the date is the proleptic Gregorian UTC date of
/// the instant moved by the zone's offset there, which jiff keeps within
/// 25:59:59 either way. Which offset applies is not stated: it rests on the
/// zone's rules.
#[verifier::external_body]
fn date_in_zone(ms: i64, tz: &TimeZone) -> (r: Option<CivilDate>)
    ensures
        r is Some <==> representable(ms),
        r matches Some(d) ==> d.in_range() && near_utc_date(ms as int, d),
{
    match Timestamp::from_millisecond(ms) {
        Ok(ts) => {
            let z = ts.to_zoned(tz.clone());
            Some(CivilDate { year: z.year() as i64, month: z.month() as u8, day: z.day() as u8 })
        },
        Err(_) => None,
    }
}

/// The calendar date of an instant in the system time zone, with jiff
/// (`TimeZone::system`, `Timestamp::from_millisecond`,
/// `Timestamp::to_zoned`). Claimed as for `date_in_zone`: present exactly
/// when `ms` lies within jiff's range, components in range, and the UTC
/// date of the instant moved by an offset of at most 25:59:59. Which offset
/// applies is not stated: it rests on this machine's time zone.
#[verifier::external_body]
fn date_in_system_zone(ms: i64) -> (r: Option<CivilDate>)
    ensures
        r is Some <==> representable(ms),
        r matches Some(d) ==> d.in_range() && near_utc_date(ms as int, d),
{
    match Timestamp::from_millisecond(ms) {
        Ok(ts) => {
            let z = ts.to_zoned(TimeZone::system());
            Some(CivilDate { year: z.year() as i64, month: z.month() as u8, day: z.day() as u8 })
        },
        Err(_) => None,
    }
}

/// The calendar date of an instant in `tz`, or in the system time zone when
/// no zone is given; `None` when jiff cannot represent the instant.
pub fn local_date_at(ms: i64, tz: Option<&TimeZone>) -> (r: Option<CivilDate>)
    ensures
        r is Some <==> representable(ms),
        r matches Some(d) ==> d.in_range() && near_utc_date(ms as int, d),
{
    match tz {
        Some(zone) => date_in_zone(ms, zone),
        None => date_in_system_zone(ms),
    }
}

/// The date an instant is reported under: its date in `tz` (in the system
/// time zone when no zone is given), or its UTC date when jiff cannot
/// represent the instant.
pub fn report_date(ms: i64, tz: Option<&TimeZone>) -> (d: CivilDate)
    ensures
        d.in_range(),
        near_utc_date(ms as int, d),
        !representable(ms) ==> d == utc_datetime_of(ms as int).date(),
{
    match local_date_at(ms, tz) {
        Some(d) => d,
        None => {
            let t = utc_datetime(ms);
            assert(shifted_date(ms as int, 0) == t.date());
            CivilDate { year: t.year, month: t.month, day: t.day }
        },
    }
}

fn push_year(s: &mut String, y: i64)
    requires
        -1_000_000_000 <= y <= 1_000_000_000,
    ensures
        final(s)@ == old(s)@ + year_text(y as int),
{
    let ghost start = s@;
    let n: u64 = if y < 0 {
        push_char(s, '-');
        (-y) as u64
    } else {
        y as u64
    };
    let ghost mid = s@;
    if n < 10000 {
        push_pad4(s, n as u32);
    } else {
        push_decimal(s, n);
    }
    assert(s@ == mid + year_digits(n as int));
    if y < 0 {
        assert(s@ == start + (seq!['-'] + year_digits(-y)));
    }
}

fn push_date(s: &mut String, d: CivilDate)
    requires
        d.in_range(),
    ensures
        final(s)@ == old(s)@ + date_text(d),
{
    push_year(s, d.year);
    push_char(s, '-');
    push_pad2(s, d.month as u32);
    push_char(s, '-');
    push_pad2(s, d.day as u32);
    assert(s@ == old(s)@ + date_text(d));
}

/// Formats a date as `YYYY-MM-DD`.
pub fn format_date(d: CivilDate) -> (r: String)
    requires
        d.in_range(),
    ensures
        r@ == date_text(d),
{
    let mut s = String::new();
    push_date(&mut s, d);
    assert(s@ == date_text(d));
    s
}

/// Formats a UTC datetime as `YYYY-MM-DDTHH:MM:SS.mmmZ`.
pub fn format_rfc3339_millis(t: CivilDateTime) -> (r: String)
    requires
        t.in_range(),
    ensures
        r@ == timestamp_text(t),
{
    let mut s = String::new();
    push_date(&mut s, CivilDate { year: t.year, month: t.month, day: t.day });
    push_char(&mut s, 'T');
    push_pad2(&mut s, t.hour as u32);
    push_char(&mut s, ':');
    push_pad2(&mut s, t.minute as u32);
    push_char(&mut s, ':');
    push_pad2(&mut s, t.second as u32);
    push_char(&mut s, '.');
    push_pad3(&mut s, t.millisecond as u32);
    push_char(&mut s, 'Z');
    assert(s@ == timestamp_text(t));
    s
}

} // verus!
