//! CP56Time2a, the seven-byte time tag of IEC 60870-5-104.
//!
//! Byte 0-1 milliseconds within the minute (little endian), byte 2 minutes
//! (bit 0-5) with the IV flag in bit 7, byte 3 hours (bit 0-4) with the SU flag
//! in bit 7, byte 4 day of month (bit 0-4) with the weekday in bit 5-7, byte 5
//! month (bit 0-3), byte 6 year of the century (bit 0-6, 2000-based).

use vstd::prelude::*;

use crate::text::digit_char;

verus! {

/// The fields of a CP56Time2a time tag.
#[derive(Clone, Copy, Debug, PartialEq, Eq, Structural)]
pub struct Cp56Time {
    pub milliseconds: u16,
    pub minutes: u8,
    pub hours: u8,
    pub day: u8,
    pub weekday: u8,
    pub month: u8,
    pub year: u16,
    pub summer_time: bool,
    pub invalid: bool,
}

/// A time tag can be encoded when its year lies in the century the format covers.
pub open spec fn cp56_encodable(t: Cp56Time) -> bool {
    2000 <= t.year <= 2099
}

/// The seven bytes of a time tag.
pub open spec fn cp56_bytes(t: Cp56Time) -> Seq<u8> {
    seq![
        (t.milliseconds % 256) as u8,
        (t.milliseconds / 256) as u8,
        ((t.minutes % 64) + if t.invalid { 128int } else { 0int }) as u8,
        ((t.hours % 32) + if t.summer_time { 128int } else { 0int }) as u8,
        ((t.day % 32) + (t.weekday % 8) * 32) as u8,
        (t.month % 16) as u8,
        ((t.year - 2000) % 128) as u8,
    ]
}

/// The fields read back from seven bytes.
pub open spec fn cp56_fields(b: Seq<u8>) -> Cp56Time {
    Cp56Time {
        milliseconds: (b[0] + b[1] * 256) as u16,
        minutes: (b[2] % 64) as u8,
        hours: (b[3] % 32) as u8,
        day: (b[4] % 32) as u8,
        weekday: (b[4] / 32) as u8,
        month: (b[5] % 16) as u8,
        year: (2000 + b[6] % 128) as u16,
        summer_time: b[3] >= 128,
        invalid: b[2] >= 128,
    }
}

/// Gregorian leap year.
pub open spec fn is_leap_year(year: int) -> bool {
    (year % 4 == 0 && year % 100 != 0) || year % 400 == 0
}

/// Number of days of a month (1-12) in a year.
pub open spec fn days_in_month(year: int, month: int) -> int {
    if month == 2 {
        if is_leap_year(year) { 29 } else { 28 }
    } else if month == 4 || month == 6 || month == 9 || month == 11 {
        30
    } else {
        31
    }
}

/// A calendar date that exists.
pub open spec fn valid_civil_date(year: int, month: int, day: int) -> bool {
    1 <= month <= 12 && 1 <= day <= days_in_month(year, month)
}

/// A time of day with milliseconds below one second.
pub open spec fn valid_time_of_day(hour: int, minute: int, second: int) -> bool {
    hour < 24 && minute < 60 && second < 60
}

/// A time tag whose date and time of day exist.
pub open spec fn cp56_resolvable(t: Cp56Time) -> bool {
    valid_civil_date(t.year as int, t.month as int, t.day as int)
        && valid_time_of_day(t.hours as int, t.minutes as int, (t.milliseconds / 1000) as int)
}

/// Whether a date of the proleptic Gregorian calendar exists: the month is
/// 1-12 and the day lies within it, as `chrono::NaiveDate::from_ymd_opt`
/// decides for the years 0-65535.
pub fn civil_date_exists(year: i32, month: u32, day: u32) -> (r: bool)
    requires
        0 <= year <= 65535,
    ensures
        r == valid_civil_date(year as int, month as int, day as int),
{
    if month < 1 || month > 12 || day < 1 {
        return false;
    }
    let leap = (year % 4 == 0 && year % 100 != 0) || year % 400 == 0;
    let days: u32 = if month == 2 {
        if leap { 29 } else { 28 }
    } else if month == 4 || month == 6 || month == 9 || month == 11 {
        30
    } else {
        31
    };
    day <= days
}

/// Whether a time of day exists: hour below 24, minute and second below 60,
/// as `chrono::NaiveTime::from_hms_milli_opt` decides for milliseconds below 1000.
pub fn time_of_day_exists(hour: u32, minute: u32, second: u32) -> (r: bool)
    ensures
        r == valid_time_of_day(hour as int, minute as int, second as int),
{
    hour < 24 && minute < 60 && second < 60
}

/// `n` (below 100) as two digits, zero padded.
pub open spec fn padded2(n: int) -> Seq<char> {
    seq![digit_char((n / 10) as nat), digit_char((n % 10) as nat)]
}

/// `n` (below 1000) as three digits, zero padded.
pub open spec fn padded3(n: int) -> Seq<char> {
    seq![digit_char((n / 100) as nat), digit_char(((n / 10) % 10) as nat), digit_char((n % 10) as nat)]
}

/// `n` (below 10000) as four digits, zero padded.
pub open spec fn padded4(n: int) -> Seq<char> {
    seq![
        digit_char((n / 1000) as nat),
        digit_char(((n / 100) % 10) as nat),
        digit_char(((n / 10) % 10) as nat),
        digit_char((n % 10) as nat),
    ]
}

/// A UTC date and time written as `YYYY-MM-DD HH:MM:SS.mmm UTC`.
pub open spec fn utc_text(year: int, month: int, day: int, hour: int, minute: int, second: int, milli: int) -> Seq<char> {
    padded4(year) + "-"@ + padded2(month) + "-"@ + padded2(day) + " "@ + padded2(hour) + ":"@ + padded2(minute)
        + ":"@ + padded2(second) + "."@ + padded3(milli) + " UTC"@
}

/// The UTC date and time of a time tag in that form.
pub open spec fn cp56_utc_text(t: Cp56Time) -> Seq<char> {
    utc_text(t.year as int, t.month as int, t.day as int, t.hours as int, t.minutes as int,
        (t.milliseconds / 1000) as int, (t.milliseconds % 1000) as int)
}

/// The chrono UTC date and time of these fields, formatted with
/// `"%Y-%m-%d %H:%M:%S%.3f UTC"`. chrono documents each of these fields as
/// zero padded to its width (four digits for the year, three for the
/// fraction); the fields must form an existing date and time.
#[verifier::external_body]
fn chrono_utc_text(year: i32, month: u32, day: u32, hour: u32, minute: u32, second: u32, milli: u32) -> (r: String)
    requires
        0 <= year <= 9999,
        valid_civil_date(year as int, month as int, day as int),
        valid_time_of_day(hour as int, minute as int, second as int),
        milli < 1000,
    ensures
        r@ == utc_text(year as int, month as int, day as int, hour as int, minute as int, second as int, milli as int),
{
    chrono::NaiveDate::from_ymd_opt(year, month, day)
        .unwrap()
        .and_hms_milli_opt(hour, minute, second, milli)
        .unwrap()
        .and_utc()
        .format("%Y-%m-%d %H:%M:%S%.3f UTC")
        .to_string()
}

/// The UTC date and time of a time tag as text.
pub fn format_cp56_utc(t: Cp56Time) -> (r: String)
    requires
        cp56_resolvable(t),
        t.year <= 9999,
    ensures
        r@ == cp56_utc_text(t),
{
    chrono_utc_text(t.year as i32, t.month as u32, t.day as u32, t.hours as u32, t.minutes as u32,
        (t.milliseconds / 1000) as u32, (t.milliseconds % 1000) as u32)
}

/// Encodes a time tag (the year must lie in 2000-2099).
pub fn encode_cp56_time2a(t: Cp56Time) -> (r: [u8; 7])
    requires
        cp56_encodable(t),
    ensures
        r@ == cp56_bytes(t),
{
    let b2: u8 = if t.invalid { t.minutes % 64 + 128 } else { t.minutes % 64 };
    let b3: u8 = if t.summer_time { t.hours % 32 + 128 } else { t.hours % 32 };
    let b4: u8 = t.day % 32 + (t.weekday % 8) * 32;
    let b6: u8 = ((t.year - 2000) % 128) as u8;
    let r = [(t.milliseconds % 256) as u8, (t.milliseconds / 256) as u8, b2, b3, b4, t.month % 16, b6];
    assert(r@ =~= cp56_bytes(t));
    r
}

/// Appends the seven bytes of a time tag.
pub fn push_cp56(out: &mut Vec<u8>, t: Cp56Time)
    requires
        cp56_encodable(t),
    ensures
        final(out)@ == old(out)@ + cp56_bytes(t),
{
    let b = encode_cp56_time2a(t);
    let mut i: usize = 0;
    while i < 7
        invariant
            i <= 7,
            b@ == cp56_bytes(t),
            out@ == old(out)@ + b@.subrange(0, i as int),
        decreases 7 - i,
    {
        out.push(b[i]);
        i = i + 1;
        assert(out@ =~= old(out)@ + b@.subrange(0, i as int));
    }
    assert(b@.subrange(0, 7) =~= b@);
}

/// Reads the fields of a seven-byte time tag.
pub fn parse_cp56_time2a(raw: &[u8; 7]) -> (r: Cp56Time)
    ensures
        r == cp56_fields(raw@),
{
    Cp56Time {
        milliseconds: raw[0] as u16 + raw[1] as u16 * 256,
        minutes: raw[2] % 64,
        hours: raw[3] % 32,
        day: raw[4] % 32,
        weekday: raw[4] / 32,
        month: raw[5] % 16,
        year: 2000 + (raw[6] % 128) as u16,
        summer_time: raw[3] >= 128,
        invalid: raw[2] >= 128,
    }
}

/// Whether the date and the time of day of a time tag exist, as chrono decides it.
pub fn cp56_is_resolvable(t: Cp56Time) -> (r: bool)
    ensures
        r == cp56_resolvable(t),
{
    let date_ok = civil_date_exists(t.year as i32, t.month as u32, t.day as u32);
    let second = (t.milliseconds / 1000) as u32;
    let time_ok = time_of_day_exists(t.hours as u32, t.minutes as u32, second);
    date_ok && time_ok
}

/// A time tag whose fields fit their octets reads back as it was written.
pub proof fn cp56_encoding_round_trips(t: Cp56Time)
    requires
        cp56_encodable(t),
        t.minutes < 64,
        t.hours < 32,
        t.day < 32,
        t.weekday < 8,
        t.month < 16,
    ensures
        cp56_fields(cp56_bytes(t)) == t,
{
    let b = cp56_bytes(t);
    assert(b[0] + b[1] * 256 == t.milliseconds) by (nonlinear_arith)
        requires b[0] == t.milliseconds % 256, b[1] == t.milliseconds / 256;
    assert(b[4] % 32 == t.day && b[4] / 32 == t.weekday) by (nonlinear_arith)
        requires b[4] == t.day + t.weekday * 32, t.day < 32, t.weekday < 8;
}

} // verus!
