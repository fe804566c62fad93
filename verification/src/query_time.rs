//! The time range of a log query as the interface writes it (RFC 3339 text)
//! and as the file transfer sends it (CP56Time2a).

use vstd::prelude::*;
use vstd::string::*;

use chrono::{Datelike, Timelike};

use crate::cp56::{cp56_bytes, encode_cp56_time2a, Cp56Time};
use crate::strutil::{trim_bounds, trim_seq};
use crate::text::join3;

verus! {

/// The UTC instant RFC 3339 text names, as whole seconds since the Unix epoch
/// and nanoseconds, or chrono's description of why the text names none.
pub uninterp spec fn rfc3339_utc_instant(text: Seq<char>) -> Result<(i64, u32), Seq<char>>;

/// The UTC calendar fields of an instant: year, month, day, hour, minute,
/// second, milliseconds of the second and the weekday counted from Monday = 1.
pub uninterp spec fn utc_calendar_fields(secs: i64, nanos: u32) -> Option<(i32, u32, u32, u32, u32, u32, u32, u32)>;

/// `chrono::DateTime::parse_from_rfc3339`, converted to UTC and read as
/// `timestamp()` and `timestamp_subsec_nanos()`; a failure is chrono's
/// `ParseError` rendered by `Display`. Both outcomes are named, not stated;
/// chrono documents that `DateTime::from_timestamp` takes such a pair back to
/// the instant, so its calendar fields exist.
#[verifier::external_body]
fn chrono_parse_rfc3339(text: &str) -> (r: Result<(i64, u32), String>)
    ensures
        match r {
            Ok(v) => rfc3339_utc_instant(text@) == Ok::<(i64, u32), Seq<char>>(v),
            Err(e) => rfc3339_utc_instant(text@) == Err::<(i64, u32), Seq<char>>(e@),
        },
        r matches Ok(v) ==> utc_calendar_fields(v.0, v.1) is Some,
{
    match chrono::DateTime::parse_from_rfc3339(text) {
        Ok(t) => {
            let utc = t.with_timezone(&chrono::Utc);
            Ok((utc.timestamp(), utc.timestamp_subsec_nanos()))
        },
        Err(e) => Err(e.to_string()),
    }
}

/// The civil date (year, month, day) of a day count since 1970-01-01, in the
/// proleptic Gregorian calendar, years counted from March in eras of 400 years.
pub open spec fn civil_from_days(days: int) -> (int, int, int) {
    let z = days + 719468;
    let era = z / 146097;
    let doe = z - era * 146097;
    let yoe = (doe - doe / 1460 + doe / 36524 - doe / 146096) / 365;
    let y = yoe + era * 400;
    let doy = doe - (365 * yoe + yoe / 4 - yoe / 100);
    let mp = (5 * doy + 2) / 153;
    let d = doy - (153 * mp + 2) / 5 + 1;
    let m = if mp < 10 { mp + 3 } else { mp - 9 };
    (if m <= 2 { y + 1 } else { y }, m, d)
}

/// The UTC calendar fields of `secs` seconds and `nanos` nanoseconds after the
/// Unix epoch: the date of the day, the time of day, the milliseconds of the
/// second (from 1000 in a leap second) and the weekday from Monday = 1
/// (1970-01-01 was a Thursday).
pub open spec fn utc_fields_of(secs: i64, nanos: u32) -> (i32, u32, u32, u32, u32, u32, u32, u32) {
    let days = secs / 86400;
    let sod = secs % 86400;
    let (y, m, d) = civil_from_days(days);
    (y as i32, m as u32, d as u32, (sod / 3600) as u32, ((sod % 3600) / 60) as u32, (sod % 60) as u32,
        (nanos / 1_000_000) as u32, ((days + 3) % 7 + 1) as u32)
}

/// `chrono::DateTime::from_timestamp(secs, nanos)` read field by field:
/// `year()`, `month()`, `day()`, `hour()`, `minute()`, `second()`,
/// `timestamp_subsec_millis()` and `weekday().number_from_monday()`. chrono
/// documents the ranges stated (a leap second shows as milliseconds from
/// 1000) and the fields of an instant it represents; whether it represents
/// one (the year within its range, the nanoseconds of a leap second only in
/// the last second of a minute) is named, not stated.
#[verifier::external_body]
fn chrono_utc_fields(secs: i64, nanos: u32) -> (r: Option<(i32, u32, u32, u32, u32, u32, u32, u32)>)
    ensures
        r == utc_calendar_fields(secs, nanos),
        r matches Some(f) ==> 1 <= f.1 <= 12 && 1 <= f.2 <= 31 && f.3 < 24 && f.4 < 60 && f.5 < 60
            && f.6 < 2000 && 1 <= f.7 <= 7,
        r matches Some(f) ==> f == utc_fields_of(secs, nanos),
{
    match chrono::DateTime::from_timestamp(secs, nanos) {
        Some(t) => Some((t.year(), t.month(), t.day(), t.hour(), t.minute(), t.second(),
            t.timestamp_subsec_millis(), t.weekday().number_from_monday())),
        None => None,
    }
}

/// What a query time field holds: nothing when absent or blank, else the
/// instant its trimmed text names, or why it names none.
pub open spec fn query_time_outcome(raw: Option<Seq<char>>, field_name: Seq<char>) -> Result<Option<(i64, u32)>, Seq<char>> {
    match raw {
        None => Ok(None),
        Some(s) => if trim_seq(s).len() == 0 {
            Ok(None)
        } else {
            match rfc3339_utc_instant(trim_seq(s)) {
                Ok(v) => Ok(Some(v)),
                Err(e) => Err(field_name + " 不是合法的 RFC3339 时间: "@ + e),
            }
        },
    }
}

pub open spec fn outcome_view(r: Result<Option<(i64, u32)>, String>) -> Result<Option<(i64, u32)>, Seq<char>> {
    match r {
        Ok(v) => Ok(v),
        Err(e) => Err(e@),
    }
}

pub open spec fn opt_str_view(raw: Option<&str>) -> Option<Seq<char>> {
    match raw {
        Some(s) => Some(s@),
        None => None,
    }
}

/// Reads a query time field.
pub fn parse_query_time(raw: Option<&str>, field_name: &str) -> (r: Result<Option<(i64, u32)>, String>)
    ensures
        outcome_view(r) == query_time_outcome(opt_str_view(raw), field_name@),
        r matches Ok(Some(v)) ==> utc_calendar_fields(v.0, v.1) is Some,
{
    match raw {
        None => Ok(None),
        Some(s) => {
            let (a, b) = trim_bounds(s);
            if a == b {
                return Ok(None);
            }
            let text = s.substring_char(a, b);
            match chrono_parse_rfc3339(text) {
                Ok(v) => Ok(Some(v)),
                Err(e) => Err(join3(field_name, " 不是合法的 RFC3339 时间: ", e.as_str())),
            }
        },
    }
}

/// Whether instant `a` lies after instant `b`.
pub open spec fn instant_after(a: (i64, u32), b: (i64, u32)) -> bool {
    a.0 > b.0 || (a.0 == b.0 && a.1 > b.1)
}

/// Why a query range is refused: an unreadable start, then an unreadable
/// end, then a start after the end.
pub open spec fn query_range_failure(start: Option<Seq<char>>, end: Option<Seq<char>>) -> Option<Seq<char>> {
    match query_time_outcome(start, "query_start_time"@) {
        Err(e) => Some(e),
        Ok(s) => match query_time_outcome(end, "query_end_time"@) {
            Err(e) => Some(e),
            Ok(t) => match (s, t) {
                (Some(a), Some(b)) => if instant_after(a, b) { Some("query_start_time 不能晚于 query_end_time"@) } else { None },
                _ => None,
            },
        },
    }
}

/// Checks the time range of a log query.
pub fn validate_query_time_range(start: Option<&str>, end: Option<&str>) -> (r: Result<(), String>)
    ensures
        match query_range_failure(opt_str_view(start), opt_str_view(end)) {
            None => r is Ok,
            Some(m) => r matches Err(e) && e@ == m,
        },
{
    let start_time = parse_query_time(start, "query_start_time")?;
    let end_time = parse_query_time(end, "query_end_time")?;
    match (start_time, end_time) {
        (Some(a), Some(b)) => {
            if a.0 > b.0 || (a.0 == b.0 && a.1 > b.1) {
                return Err(String::from_str("query_start_time 不能晚于 query_end_time"));
            }
            Ok(())
        },
        _ => Ok(()),
    }
}

/// The time tag of calendar fields whose year lies in the format's century.
pub open spec fn fields_cp56(f: (i32, u32, u32, u32, u32, u32, u32, u32)) -> Cp56Time {
    Cp56Time {
        milliseconds: (f.5 * 1000 + f.6) as u16,
        minutes: f.4 as u8,
        hours: f.3 as u8,
        day: f.2 as u8,
        weekday: f.7 as u8,
        month: f.1 as u8,
        year: f.0 as u16,
        summer_time: false,
        invalid: false,
    }
}

/// The time tag a query time field is sent as: seven zero octets when the
/// field is empty, the instant's time tag when its year lies in 2000..=2099,
/// and none when it lies outside (no time tag can carry it).
pub fn parse_query_time_to_cp56(raw: Option<&str>, field_name: &str) -> (r: Option<Result<[u8; 7], String>>)
    ensures
        match query_time_outcome(opt_str_view(raw), field_name@) {
            Err(e) => r matches Some(Err(m)) && m@ == e,
            Ok(None) => r matches Some(Ok(b)) && b@ == seq![0u8, 0u8, 0u8, 0u8, 0u8, 0u8, 0u8],
            Ok(Some(v)) => utc_calendar_fields(v.0, v.1) matches Some(f) && if 2000 <= f.0 <= 2099 {
                r matches Some(Ok(b)) && b@ == cp56_bytes(fields_cp56(f))
            } else {
                r is None
            },
        },
{
    let parsed = match parse_query_time(raw, field_name) {
        Err(e) => { return Some(Err(e)); },
        Ok(p) => p,
    };
    match parsed {
        None => {
            let zero: [u8; 7] = [0u8; 7];
            assert(zero@ =~= seq![0u8, 0u8, 0u8, 0u8, 0u8, 0u8, 0u8]);
            Some(Ok(zero))
        },
        Some((secs, nanos)) => match chrono_utc_fields(secs, nanos) {
            None => None,
            Some(f) => {
                if f.0 < 2000 || f.0 > 2099 {
                    return None;
                }
                let t = Cp56Time {
                    milliseconds: (f.5 * 1000 + f.6) as u16,
                    minutes: f.4 as u8,
                    hours: f.3 as u8,
                    day: f.2 as u8,
                    weekday: f.7 as u8,
                    month: f.1 as u8,
                    year: f.0 as u16,
                    summer_time: false,
                    invalid: false,
                };
                Some(Ok(encode_cp56_time2a(t)))
            },
        },
    }
}

} // verus!
