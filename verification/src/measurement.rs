//! What the master makes of received measurements: the instant a time tag
//! names, the quality detail it shows, the sequence-of-events records, and
//! how a received point merges into the one already known.

use vstd::prelude::*;
use vstd::string::*;

use crate::commands::bool_bit;
use crate::control::ControlStatusSnapshot;
use crate::cp56::{valid_civil_date, valid_time_of_day};
use crate::decoded::{
    DecodedAsdu, DecodedAsduBody, DecodedMeasurement, DecodedMeasurementQualityDetail, DecodedMeasurementTimestamp,
    DecodedMeasurementValue, DecodedQualityCommon,
};
use crate::message_log::{bounded_limit, push_capped};
use crate::types::PointSource;

verus! {

/// Milliseconds in an hour.
pub const HOUR_MS: i64 = 3_600_000;

/// Days from 1970-01-01 to a date of the proleptic Gregorian calendar
/// (negative before it): years are counted from March, so that the leap day
/// ends the year, in eras of 400 years of 146097 days.
pub open spec fn days_from_civil(year: int, month: int, day: int) -> int {
    let y = if month <= 2 { year - 1 } else { year };
    let era = y / 400;
    let yoe = y - era * 400;
    let mp = if month > 2 { month - 3 } else { month + 9 };
    let doy = (153 * mp + 2) / 5 + day - 1;
    let doe = yoe * 365 + yoe / 4 - yoe / 100 + doy;
    era * 146097 + doe - 719468
}

/// Unix milliseconds of a UTC civil time: days since 1970-01-01 and the time of day.
pub open spec fn civil_unix_millis(year: int, month: int, day: int, hour: int, minute: int, second: int, milli: int) -> int {
    days_from_civil(year, month, day) * 86_400_000 + hour * 3_600_000 + minute * 60_000 + second * 1000 + milli
}

/// `NaiveDate::from_ymd_opt(..).and_hms_milli_opt(..).and_utc().timestamp_millis()`.
///
/// chrono gives a value exactly when the date exists (month 1-12, day within
/// the month) and the time of day does (hour below 24, minute and second below
/// 60, here with milliseconds below 1000); the value counts the days since
/// 1970-01-01 of the proleptic Gregorian calendar and the time of day.
#[verifier::external_body]
fn chrono_utc_millis(year: i32, month: u32, day: u32, hour: u32, minute: u32, second: u32, milli: u32) -> (r: Option<i64>)
    requires
        0 <= year <= 65535,
        milli < 1000,
    ensures
        r is Some <==> (valid_civil_date(year as int, month as int, day as int) && valid_time_of_day(hour as int, minute as int, second as int)),
        r matches Some(v) ==> v == civil_unix_millis(year as int, month as int, day as int, hour as int, minute as int, second as int, milli as int),
{
    chrono::NaiveDate::from_ymd_opt(year, month, day)
        .and_then(|date| date.and_hms_milli_opt(hour, minute, second, milli))
        .map(|t| t.and_utc().timestamp_millis())
}

/// The time tag of a point as the interface shows it; `resolved` is the
/// instant it names, in Unix milliseconds, when it names one.
#[derive(Clone, Copy, Debug)]
pub enum DataPointTimestampDetail {
    Cp56 { raw: [u8; 7], invalid: bool, summer_time: bool, weekday: u8, resolved: Option<i64> },
    Cp24 { raw: [u8; 3], invalid: bool, resolved: Option<i64> },
}

/// The instant a full time tag names: none when marked invalid or when its date or time does not exist.
pub open spec fn cp56_resolution(milliseconds: u16, minutes: u8, hours: u8, day: u8, month: u8, year: u16, invalid: bool) -> Option<int> {
    if invalid || !(valid_civil_date(year as int, month as int, day as int)
        && valid_time_of_day(hours as int, minutes as int, (milliseconds / 1000) as int)) {
        None
    } else {
        Some(civil_unix_millis(year as int, month as int, day as int, hours as int, minutes as int,
            (milliseconds / 1000) as int, (milliseconds % 1000) as int))
    }
}

/// Distance between two instants.
pub open spec fn distance(a: int, b: int) -> int {
    if a >= b { a - b } else { b - a }
}

/// The instant a three-octet time tag (minutes and milliseconds) names, seen
/// at `received`: the minute and millisecond within the hour of reception,
/// moved by an hour either way when that lies nearer to the reception; the
/// earliest of equally near candidates. None when the tag is marked invalid
/// or its minute or second does not exist.
pub open spec fn cp24_resolution(received: int, milliseconds: u16, minutes: u8, invalid: bool) -> Option<int> {
    if invalid || minutes >= 60 || milliseconds / 1000 >= 60 {
        None
    } else {
        let base = received - received % (HOUR_MS as int) + minutes * 60_000 + milliseconds;
        let before = base - HOUR_MS;
        let after = base + HOUR_MS;
        let d0 = distance(before, received);
        let d1 = distance(base, received);
        let d2 = distance(after, received);
        Some(if d0 <= d1 && d0 <= d2 { before } else if d1 <= d2 { base } else { after })
    }
}

/// Reception times the resolution handles without leaving the range of `i64`.
pub open spec fn reception_in_range(received_ms: i64) -> bool {
    -0x1000_0000_0000_0000 <= received_ms <= 0x1000_0000_0000_0000
}

fn abs_diff(a: i128, b: i128) -> (r: i128)
    requires
        -0x2000_0000_0000_0000 <= a <= 0x2000_0000_0000_0000,
        -0x2000_0000_0000_0000 <= b <= 0x2000_0000_0000_0000,
    ensures
        r == distance(a as int, b as int),
{
    if a >= b { a - b } else { b - a }
}

proof fn lemma_floor_mod_negative(x: int, h: int)
    requires
        x < 0,
        h > 0,
    ensures
        ({
            let q = (-(x + 1)) / h;
            let w = x + (q + 1) * h;
            &&& 0 <= w < h
            &&& x % h == w
            &&& 0 <= q <= -(x + 1)
        }),
{
    let a = -(x + 1);
    let q = a / h;
    let r = a % h;
    vstd::arithmetic::div_mod::lemma_fundamental_div_mod(a, h);
    assert(0 <= r < h);
    assert((q + 1) * h == q * h + h) by (nonlinear_arith);
    let w = x + (q + 1) * h;
    assert(w == h - r - 1);
    assert(x == (-q - 1) * h + w) by (nonlinear_arith)
        requires a == -(x + 1), a == h * q + r, w == h - r - 1;
    vstd::arithmetic::div_mod::lemma_fundamental_div_mod_converse(x, h, -q - 1, w);
    assert(q >= 0) by (nonlinear_arith) requires a >= 0, h > 0, q == a / h;
    assert(q <= a) by (nonlinear_arith) requires a >= 0, h > 0, q == a / h;
}

/// Resolves a three-octet time tag received at `received_ms`.
pub fn resolve_cp24_millis(received_ms: i64, milliseconds: u16, minutes: u8, invalid: bool) -> (r: Option<i64>)
    requires
        reception_in_range(received_ms),
    ensures
        match cp24_resolution(received_ms as int, milliseconds, minutes, invalid) {
            Some(v) => r == Some(v as i64) && v == r->0,
            None => r is None,
        },
{
    if invalid || minutes >= 60 || milliseconds / 1000 >= 60 {
        return None;
    }
    let received = received_ms as i128;
    let h = HOUR_MS as i128;
    let within: i128 = if received >= 0 {
        received % h
    } else {
        let a: i128 = -(received + 1);
        let q: i128 = a / h;
        proof { lemma_floor_mod_negative(received as int, h as int); }
        let w: i128 = received + (q + 1) * h;
        w
    };
    assert(within == received % h);
    let base = received - within + (minutes as i128) * 60_000 + milliseconds as i128;
    let before = base - h;
    let after = base + h;
    let d0 = abs_diff(before, received);
    let d1 = abs_diff(base, received);
    let d2 = abs_diff(after, received);
    let chosen = if d0 <= d1 && d0 <= d2 { before } else if d1 <= d2 { base } else { after };
    Some(chosen as i64)
}

/// The instant a measurement is dated with and the time tag detail it shows:
/// the instant its tag names, or the reception time when it has none or the
/// tag names none.
pub open spec fn spec_measurement_time(detail: Option<DecodedMeasurementTimestamp>, received: i64) -> (int, Option<(bool, Option<int>)>) {
    match detail {
        Some(DecodedMeasurementTimestamp::Cp56 { milliseconds, minutes, hours, day, month, year, invalid, .. }) => {
            let res = cp56_resolution(milliseconds, minutes, hours, day, month, year, invalid);
            (match res { Some(v) => v, None => received as int }, Some((invalid, res)))
        },
        Some(DecodedMeasurementTimestamp::Cp24 { milliseconds, minutes, invalid, .. }) => {
            let res = cp24_resolution(received as int, milliseconds, minutes, invalid);
            (match res { Some(v) => v, None => received as int }, Some((invalid, res)))
        },
        None => (received as int, None),
    }
}

/// An instant in milliseconds, as the point detail carries it.
pub open spec fn millis_opt(v: Option<int>) -> Option<i64> {
    match v {
        Some(x) => Some(x as i64),
        None => None,
    }
}

/// The time tag detail a measurement shows: its tag as received, whether it
/// is marked invalid, and the instant it names (see `spec_measurement_time`).
pub open spec fn spec_timestamp_detail(detail: Option<DecodedMeasurementTimestamp>, received: i64) -> Option<DataPointTimestampDetail> {
    match detail {
        Some(DecodedMeasurementTimestamp::Cp56 { raw, milliseconds, minutes, hours, day, month, year, weekday, summer_time, invalid }) =>
            Some(DataPointTimestampDetail::Cp56 {
                raw, invalid, summer_time, weekday,
                resolved: millis_opt(cp56_resolution(milliseconds, minutes, hours, day, month, year, invalid)),
            }),
        Some(DecodedMeasurementTimestamp::Cp24 { raw, milliseconds, minutes, invalid }) =>
            Some(DataPointTimestampDetail::Cp24 {
                raw, invalid, resolved: millis_opt(cp24_resolution(received as int, milliseconds, minutes, invalid)),
            }),
        None => None,
    }
}

pub open spec fn detail_view(d: Option<DataPointTimestampDetail>) -> Option<(bool, Option<int>)> {
    match d {
        Some(DataPointTimestampDetail::Cp56 { invalid, resolved, .. }) => Some((invalid, match resolved { Some(v) => Some(v as int), None => None })),
        Some(DataPointTimestampDetail::Cp24 { invalid, resolved, .. }) => Some((invalid, match resolved { Some(v) => Some(v as int), None => None })),
        None => None,
    }
}

/// Dates a measurement received at `received_ms`.
pub fn resolve_measurement_timestamp(detail: Option<DecodedMeasurementTimestamp>, received_ms: i64) -> (r: (i64, Option<DataPointTimestampDetail>))
    requires
        reception_in_range(received_ms),
    ensures
        (r.0 as int, detail_view(r.1)) == spec_measurement_time(detail, received_ms),
        r.1 == spec_timestamp_detail(detail, received_ms),
        match (detail, r.1) {
            (Some(DecodedMeasurementTimestamp::Cp56 { raw, summer_time, weekday, .. }),
             Some(DataPointTimestampDetail::Cp56 { raw: r2, summer_time: s2, weekday: w2, .. })) => raw == r2 && summer_time == s2 && weekday == w2,
            (Some(DecodedMeasurementTimestamp::Cp24 { raw, .. }), Some(DataPointTimestampDetail::Cp24 { raw: r2, .. })) => raw == r2,
            (None, None) => true,
            _ => false,
        },
{
    match detail {
        Some(DecodedMeasurementTimestamp::Cp56 { raw, milliseconds, minutes, hours, day, month, year, weekday, summer_time, invalid }) => {
            let resolved = if invalid {
                None
            } else {
                chrono_utc_millis(year as i32, month as u32, day as u32, hours as u32, minutes as u32,
                    (milliseconds / 1000) as u32, (milliseconds % 1000) as u32)
            };
            let at = match resolved { Some(v) => v, None => received_ms };
            (at, Some(DataPointTimestampDetail::Cp56 { raw, invalid, summer_time, weekday, resolved }))
        },
        Some(DecodedMeasurementTimestamp::Cp24 { raw, milliseconds, minutes, invalid }) => {
            let resolved = resolve_cp24_millis(received_ms, milliseconds, minutes, invalid);
            let at = match resolved { Some(v) => v, None => received_ms };
            (at, Some(DataPointTimestampDetail::Cp24 { raw, invalid, resolved }))
        },
        None => (received_ms, None),
    }
}

/// The quality descriptor of a point as the interface shows it.
#[derive(Clone, Copy, Debug, PartialEq, Eq, Structural)]
pub enum DataPointQualityDetail {
    Siq { raw: u8, spi: bool, iv: bool, nt: bool, sb: bool, bl: bool },
    Diq { raw: u8, dpi: u8, iv: bool, nt: bool, sb: bool, bl: bool },
    Qds { raw: u8, ov: bool, iv: bool, nt: bool, sb: bool, bl: bool, transient: bool, scd_status: u16, scd_change: u16 },
    Bcr { raw: u8, sq: u8, cy: bool, ca: bool, iv: bool },
    Absent,
}

/// The detail carried over field by field.
pub open spec fn spec_quality_detail(d: DecodedMeasurementQualityDetail) -> DataPointQualityDetail {
    match d {
        DecodedMeasurementQualityDetail::Siq { raw, spi, iv, nt, sb, bl } => DataPointQualityDetail::Siq { raw, spi, iv, nt, sb, bl },
        DecodedMeasurementQualityDetail::Diq { raw, dpi, iv, nt, sb, bl } => DataPointQualityDetail::Diq { raw, dpi, iv, nt, sb, bl },
        DecodedMeasurementQualityDetail::Qds { raw, ov, iv, nt, sb, bl, transient, scd_status, scd_change } =>
            DataPointQualityDetail::Qds { raw, ov, iv, nt, sb, bl, transient, scd_status, scd_change },
        DecodedMeasurementQualityDetail::Bcr { raw, sq, cy, ca, iv } => DataPointQualityDetail::Bcr { raw, sq, cy, ca, iv },
        DecodedMeasurementQualityDetail::Absent => DataPointQualityDetail::Absent,
    }
}

/// Shows a received quality descriptor.
pub fn map_quality_detail(detail: &DecodedMeasurementQualityDetail) -> (r: DataPointQualityDetail)
    ensures
        r == spec_quality_detail(*detail),
{
    match *detail {
        DecodedMeasurementQualityDetail::Siq { raw, spi, iv, nt, sb, bl } => DataPointQualityDetail::Siq { raw, spi, iv, nt, sb, bl },
        DecodedMeasurementQualityDetail::Diq { raw, dpi, iv, nt, sb, bl } => DataPointQualityDetail::Diq { raw, dpi, iv, nt, sb, bl },
        DecodedMeasurementQualityDetail::Qds { raw, ov, iv, nt, sb, bl, transient, scd_status, scd_change } =>
            DataPointQualityDetail::Qds { raw, ov, iv, nt, sb, bl, transient, scd_status, scd_change },
        DecodedMeasurementQualityDetail::Bcr { raw, sq, cy, ca, iv } => DataPointQualityDetail::Bcr { raw, sq, cy, ca, iv },
        DecodedMeasurementQualityDetail::Absent => DataPointQualityDetail::Absent,
    }
}

/// A sequence-of-events record. The value is kept as received; `point_name`
/// is filled from the point table when the point is known.
#[derive(Clone, Debug)]
pub struct SoeEvent {
    pub id: u64,
    pub logged_at_ms: i64,
    pub event_timestamp_ms: i64,
    pub connection_id: String,
    pub slave_id: Option<i64>,
    pub point_name: Option<String>,
    pub common_address: u16,
    pub ioa: u32,
    pub type_id: u8,
    pub cause: u16,
    pub value: DecodedMeasurementValue,
    pub quality: u8,
    pub quality_common: DecodedQualityCommon,
    pub quality_detail: DataPointQualityDetail,
    pub timestamp_detail: Option<DataPointTimestampDetail>,
}

impl SoeEvent {
    /// A copy of the event.
    pub fn duplicate(&self) -> (r: SoeEvent)
        ensures
            r == *self,
    {
        SoeEvent {
            id: self.id,
            logged_at_ms: self.logged_at_ms,
            event_timestamp_ms: self.event_timestamp_ms,
            connection_id: self.connection_id.clone(),
            slave_id: self.slave_id,
            point_name: match &self.point_name { Some(n) => Some(n.clone()), None => None },
            common_address: self.common_address,
            ioa: self.ioa,
            type_id: self.type_id,
            cause: self.cause,
            value: self.value,
            quality: self.quality,
            quality_common: self.quality_common,
            quality_detail: self.quality_detail,
            timestamp_detail: self.timestamp_detail,
        }
    }
}

/// Types whose spontaneous reports are recorded as events: the monitored
/// types with a seven-octet time tag, bit strings (33) aside.
pub open spec fn soe_type(t: u8) -> bool {
    30 <= t <= 37 && t != 33
}

/// Whether an ASDU's measurements become events: a spontaneous report (COT 3) of an event type.
pub open spec fn asdu_yields_events(asdu: DecodedAsdu) -> bool {
    asdu.cause % 64 == 3 && soe_type(asdu.type_id) && asdu.body is Measurements
}

/// The event a measurement of `asdu` becomes.
pub open spec fn event_matches(e: SoeEvent, m: DecodedMeasurement, asdu: DecodedAsdu, connection_id: Seq<char>, slave_id: Option<i64>, now_ms: i64) -> bool {
    let (at, detail) = spec_measurement_time(m.timestamp, now_ms);
    &&& e.id == 0
    &&& e.logged_at_ms == now_ms
    &&& e.event_timestamp_ms == at
    &&& detail_view(e.timestamp_detail) == detail
    &&& e.timestamp_detail == spec_timestamp_detail(m.timestamp, now_ms)
    &&& e.connection_id@ == connection_id
    &&& e.slave_id == slave_id
    &&& e.point_name is None
    &&& e.common_address == asdu.common_address
    &&& e.ioa == m.ioa
    &&& e.type_id == asdu.type_id
    &&& e.cause == asdu.cause
    &&& e.value == m.value
    &&& e.quality == m.quality
    &&& e.quality_common == m.quality_common
    &&& e.quality_detail == spec_quality_detail(m.quality_detail)
}

/// The measurements an ASDU body holds.
pub open spec fn measurement_items(b: DecodedAsduBody) -> Seq<DecodedMeasurement> {
    match b {
        DecodedAsduBody::Measurements { items } => items@,
        _ => Seq::empty(),
    }
}

/// The events a received ASDU yields at `now_ms`, one per measurement, in order.
pub fn extract_master_soe_measurements(connection_id: &str, slave_id: Option<i64>, decoded_asdu: &DecodedAsdu, now_ms: i64) -> (r: Vec<SoeEvent>)
    requires
        reception_in_range(now_ms),
    ensures
        !asdu_yields_events(*decoded_asdu) ==> r@.len() == 0,
        asdu_yields_events(*decoded_asdu) ==> match decoded_asdu.body {
            DecodedAsduBody::Measurements { items } => {
                &&& r@.len() == items@.len()
                &&& forall|k: int| 0 <= k < items@.len() ==> event_matches(#[trigger] r@[k], items@[k], *decoded_asdu, connection_id@, slave_id, now_ms)
            },
            _ => false,
        },
{
    let mut events: Vec<SoeEvent> = Vec::new();
    if decoded_asdu.cause % 64 != 3 {
        return events;
    }
    let t = decoded_asdu.type_id;
    if !(30 <= t && t <= 37 && t != 33) {
        return events;
    }
    let items = match &decoded_asdu.body {
        DecodedAsduBody::Measurements { items } => items,
        _ => { return events; },
    };
    let mut i: usize = 0;
    while i < items.len()
        invariant
            i <= items@.len(),
            reception_in_range(now_ms),
            events@.len() == i,
            decoded_asdu.body is Measurements,
            measurement_items(decoded_asdu.body) == items@,
            forall|k: int| 0 <= k < i ==> event_matches(#[trigger] events@[k], items@[k], *decoded_asdu, connection_id@, slave_id, now_ms),
        decreases items@.len() - i,
    {
        let item = &items[i];
        let (at, detail) = resolve_measurement_timestamp(item.timestamp, now_ms);
        events.push(SoeEvent {
            id: 0,
            logged_at_ms: now_ms,
            event_timestamp_ms: at,
            connection_id: String::from_str(connection_id),
            slave_id,
            point_name: None,
            common_address: decoded_asdu.common_address,
            ioa: item.ioa,
            type_id: decoded_asdu.type_id,
            cause: decoded_asdu.cause,
            value: item.value,
            quality: item.quality,
            quality_common: item.quality_common,
            quality_detail: map_quality_detail(&item.quality_detail),
            timestamp_detail: detail,
        });
        i = i + 1;
    }
    events
}

/// The event time of the last of `events` about object `ioa`.
pub open spec fn latest_event_time(events: Seq<SoeEvent>, ioa: u32) -> Option<i64>
    decreases events.len(),
{
    if events.len() == 0 {
        None
    } else if events.last().ioa == ioa {
        Some(events.last().event_timestamp_ms)
    } else {
        latest_event_time(events.drop_last(), ioa)
    }
}

/// The event time of the last event about `ioa`, if any.
pub fn latest_event_timestamp_for(events: &Vec<SoeEvent>, ioa: u32) -> (r: Option<i64>)
    ensures
        r == latest_event_time(events@, ioa),
{
    let mut k: usize = events.len();
    assert(events@.take(k as int) =~= events@);
    while k > 0
        invariant
            k <= events@.len(),
            latest_event_time(events@, ioa) == latest_event_time(events@.take(k as int), ioa),
        decreases k,
    {
        if events[k - 1].ioa == ioa {
            assert(events@.take(k as int).last() == events@[k - 1]);
            return Some(events[k - 1].event_timestamp_ms);
        }
        assert(events@.take(k as int).drop_last() =~= events@.take(k - 1));
        k = k - 1;
    }
    None
}

/// A point the master knows, as the interface shows it. The value is kept as
/// the bits of an IEEE 754 double.
#[derive(Clone, Debug)]
pub struct DataPoint {
    pub connection_id: String,
    pub link_profile_id: Option<i64>,
    pub slave_id: Option<i64>,
    pub common_address: Option<u16>,
    pub address: u32,
    pub name: String,
    pub description: Option<String>,
    pub control_ioa: Option<u32>,
    pub gi_group: Option<u8>,
    pub counter_group: Option<u8>,
    pub type_id: u8,
    pub data_type: String,
    pub value_bits: u64,
    pub quality: u8,
    pub quality_common: Option<DecodedQualityCommon>,
    pub quality_detail: Option<DataPointQualityDetail>,
    pub business_usable: bool,
    pub timestamp_ms: i64,
    pub latest_event_timestamp_ms: Option<i64>,
    pub timestamp_detail: Option<DataPointTimestampDetail>,
    pub report_count: Option<u64>,
    pub latest_cause: Option<u16>,
    pub point_source: Option<PointSource>,
    pub control_status_snapshot: Option<ControlStatusSnapshot>,
}

/// A copy of a point.
pub fn clone_point(p: &DataPoint) -> (r: DataPoint)
    ensures
        r == *p,
{
    DataPoint {
        connection_id: p.connection_id.clone(),
        link_profile_id: p.link_profile_id,
        slave_id: p.slave_id,
        common_address: p.common_address,
        address: p.address,
        name: p.name.clone(),
        description: clone_opt_text(&p.description),
        control_ioa: p.control_ioa,
        gi_group: p.gi_group,
        counter_group: p.counter_group,
        type_id: p.type_id,
        data_type: p.data_type.clone(),
        value_bits: p.value_bits,
        quality: p.quality,
        quality_common: p.quality_common,
        quality_detail: p.quality_detail,
        business_usable: p.business_usable,
        timestamp_ms: p.timestamp_ms,
        latest_event_timestamp_ms: p.latest_event_timestamp_ms,
        timestamp_detail: p.timestamp_detail,
        report_count: p.report_count,
        latest_cause: p.latest_cause,
        point_source: p.point_source,
        control_status_snapshot: match &p.control_status_snapshot { Some(c) => Some(c.duplicate()), None => None },
    }
}

/// Each point takes the event time of the last event about its address, or none.
pub fn apply_latest_event_timestamp_to_points(points: &mut Vec<DataPoint>, events: &Vec<SoeEvent>)
    ensures
        final(points)@.len() == old(points)@.len(),
        events@.len() == 0 || old(points)@.len() == 0 ==> final(points)@ == old(points)@,
        events@.len() > 0 ==> forall|k: int| 0 <= k < final(points)@.len() ==>
            (#[trigger] final(points)@[k]) == (DataPoint {
                latest_event_timestamp_ms: latest_event_time(events@, old(points)@[k].address),
                ..old(points)@[k]
            }),
{
    if points.len() == 0 || events.len() == 0 {
        return;
    }
    let n = points.len();
    let ghost original = points@;
    let mut out: Vec<DataPoint> = Vec::new();
    let mut i: usize = 0;
    while i < n
        invariant
            n == original.len(),
            original == old(points)@,
            i <= n,
            points@ == original.subrange(i as int, n as int),
            out@.len() == i,
            events@.len() > 0,
            forall|k: int| 0 <= k < i ==> (#[trigger] out@[k]) == (DataPoint {
                latest_event_timestamp_ms: latest_event_time(events@, original[k].address),
                ..original[k]
            }),
        decreases n - i,
    {
        let mut p = points.remove(0);
        assert(p == original[i as int]);
        let ts = latest_event_timestamp_for(events, p.address);
        p.latest_event_timestamp_ms = ts;
        out.push(p);
        assert(points@ =~= original.subrange(i + 1, n as int));
        i = i + 1;
    }
    *points = out;
}

/// What merging a received point into the known one gives: the received
/// reading with the user's configuration (name, description, control
/// mapping), the known source and control status, the count of reports, and
/// the known profile, slave, common address and event time, the received ones
/// only where the known point has none. A point of another
/// type family than the known one is refused.
pub open spec fn spec_merged_point(existing: Option<DataPoint>, incoming: DataPoint, cause: u16, same_family: bool) -> Option<DataPoint> {
    match existing {
        None => Some(DataPoint { report_count: Some(1), latest_cause: Some(cause), ..incoming }),
        Some(e) => if !same_family {
            None
        } else {
            Some(DataPoint {
                name: e.name,
                description: e.description,
                control_ioa: e.control_ioa,
                point_source: if e.point_source is Some { e.point_source } else { incoming.point_source },
                control_status_snapshot: e.control_status_snapshot,
                report_count: Some(match e.report_count {
                    Some(c) => if c == u64::MAX { u64::MAX } else { (c + 1) as u64 },
                    None => 1u64,
                }),
                link_profile_id: if e.link_profile_id is Some { e.link_profile_id } else { incoming.link_profile_id },
                slave_id: if e.slave_id is Some { e.slave_id } else { incoming.slave_id },
                common_address: if e.common_address is Some { e.common_address } else { incoming.common_address },
                latest_event_timestamp_ms: if e.latest_event_timestamp_ms is Some { e.latest_event_timestamp_ms }
                    else { incoming.latest_event_timestamp_ms },
                latest_cause: Some(cause),
                ..incoming
            })
        },
    }
}

fn clone_opt_text(s: &Option<String>) -> (r: Option<String>)
    ensures
        r == *s,
{
    match s {
        Some(t) => Some(t.clone()),
        None => None,
    }
}

/// Merges a received point into the known one, if any. `same_family` tells
/// whether the two types belong to one family (see `same_type_family`).
pub fn merge_received_point(existing: Option<&DataPoint>, incoming: DataPoint, cause: u16, same_family: bool) -> (r: Option<DataPoint>)
    ensures
        r == spec_merged_point(match existing { Some(e) => Some(*e), None => None }, incoming, cause, same_family),
{
    match existing {
        None => Some(DataPoint { report_count: Some(1), latest_cause: Some(cause), ..incoming }),
        Some(e) => {
            if !same_family {
                return None;
            }
            let count: u64 = match e.report_count { Some(c) => c.saturating_add(1), None => 1 };
            Some(DataPoint {
                name: e.name.clone(),
                description: clone_opt_text(&e.description),
                control_ioa: e.control_ioa,
                point_source: if e.point_source.is_some() { e.point_source } else { incoming.point_source },
                control_status_snapshot: match &e.control_status_snapshot { Some(c) => Some(c.duplicate()), None => None },
                report_count: Some(count),
                link_profile_id: if e.link_profile_id.is_some() { e.link_profile_id } else { incoming.link_profile_id },
                slave_id: if e.slave_id.is_some() { e.slave_id } else { incoming.slave_id },
                common_address: if e.common_address.is_some() { e.common_address } else { incoming.common_address },
                latest_event_timestamp_ms: if e.latest_event_timestamp_ms.is_some() { e.latest_event_timestamp_ms }
                    else { incoming.latest_event_timestamp_ms },
                latest_cause: Some(cause),
                ..incoming
            })
        },
    }
}

/// Every report of a point counts once: merging a received point into the
/// known one raises its report count by one (saturating) and keeps the name
/// the user gave it.
pub proof fn merge_counts_reports(existing: DataPoint, incoming: DataPoint, cause: u16)
    requires
        existing.report_count matches Some(c) && c < u64::MAX,
    ensures
        spec_merged_point(Some(existing), incoming, cause, true) matches Some(m)
            && m.report_count == Some((existing.report_count->0 + 1) as u64)
            && m.name == existing.name
            && m.latest_cause == Some(cause),
{
}

/// The last `cap` entries of `s` (all of them when there are fewer).
pub open spec fn keep_last<T>(s: Seq<T>, cap: nat) -> Seq<T> {
    if s.len() > cap { s.subrange(s.len() - cap, s.len() as int) } else { s }
}

/// The events numbered on from `next_id`: the first gets `next_id + 1`.
pub open spec fn numbered_events(events: Seq<SoeEvent>, next_id: u64) -> Seq<SoeEvent> {
    Seq::new(events.len(), |k: int| SoeEvent { id: (next_id + k + 1) as u64, ..events[k] })
}

proof fn lemma_keep_last_push<T>(s: Seq<T>, e: T, cap: nat)
    ensures
        keep_last(keep_last(s, cap).push(e), cap) == keep_last(s.push(e), cap),
{
    let a = keep_last(keep_last(s, cap).push(e), cap);
    let b = keep_last(s.push(e), cap);
    assert(a =~= b);
}

/// Records events in the event log under the next ids; the oldest records give
/// way beyond `max_records`. No events leave the log as it is.
pub fn append_soe_records(records: &mut Vec<SoeEvent>, next_id: &mut u64, events: &Vec<SoeEvent>, max_records: usize)
    requires
        *old(next_id) + events@.len() <= u64::MAX,
    ensures
        *final(next_id) == *old(next_id) + events@.len(),
        events@.len() == 0 ==> final(records)@ == old(records)@,
        events@.len() > 0 ==> final(records)@ == keep_last(old(records)@ + numbered_events(events@, *old(next_id)), max_records as nat),
{
    let ghost start = *next_id;
    let ghost original = records@;
    let mut i: usize = 0;
    while i < events.len()
        invariant
            i <= events@.len(),
            start + events@.len() <= u64::MAX,
            *next_id == start + i,
            i == 0 ==> records@ == original,
            i > 0 ==> records@ == keep_last(original + numbered_events(events@, start).take(i as int), max_records as nat),
        decreases events@.len() - i,
    {
        let mut event = events[i].duplicate();
        event.id = *next_id + 1;
        let ghost stamped = event;
        assert(stamped == numbered_events(events@, start)[i as int]) by {
            assert(event == SoeEvent { id: (start + i + 1) as u64, ..events@[i as int] });
        }
        let ghost before = records@;
        push_capped(records, event, max_records);
        proof {
            let all = original + numbered_events(events@, start).take(i as int);
            assert(original + numbered_events(events@, start).take(i + 1) =~= all.push(stamped));
            if i > 0 {
                lemma_keep_last_push(all, stamped, max_records as nat);
            } else {
                assert(all =~= original);
            }
        }
        *next_id = *next_id + 1;
        i = i + 1;
    }
    proof {
        if events@.len() > 0 {
            assert(numbered_events(events@, start).take(events@.len() as int) =~= numbered_events(events@, start));
        }
    }
}

pub open spec fn event_newer_than(since_id: Option<u64>) -> spec_fn(SoeEvent) -> bool {
    |e: SoeEvent| match since_id { Some(id) => e.id > id, None => true }
}

/// The events newer than `since_id`, oldest first, at most `limit` (clamped to 1..=1000) of them.
pub fn get_soe_events(records: &Vec<SoeEvent>, since_id: Option<u64>, limit: usize) -> (r: Vec<SoeEvent>)
    ensures
        ({
            let matching = records@.filter(event_newer_than(since_id));
            r@ == matching.take(if matching.len() < bounded_limit(limit) { matching.len() as int } else { bounded_limit(limit) })
        }),
{
    let bounded: usize = if limit < 1 { 1 } else if limit > 1000 { 1000 } else { limit };
    let ghost p = event_newer_than(since_id);
    let mut out: Vec<SoeEvent> = Vec::new();
    let mut i: usize = 0;
    while i < records.len() && out.len() < bounded
        invariant
            i <= records@.len(),
            p == event_newer_than(since_id),
            bounded == bounded_limit(limit),
            out@ == records@.take(i as int).filter(p),
            out@.len() <= bounded,
        decreases records@.len() - i,
    {
        proof { crate::seqs::lemma_filter_take_step(records@, i as int, p); }
        let newer = match since_id { Some(id) => records[i].id > id, None => true };
        assert(newer == p(records@[i as int]));
        if newer {
            out.push(records[i].duplicate());
        }
        i = i + 1;
    }
    proof {
        let matching = records@.filter(p);
        assert(records@ == records@.take(i as int) + records@.subrange(i as int, records@.len() as int));
        Seq::filter_distributes_over_add(records@.take(i as int), records@.subrange(i as int, records@.len() as int), p);
        assert(matching == out@ + records@.subrange(i as int, records@.len() as int).filter(p));
        if i == records@.len() {
            assert(records@.subrange(i as int, records@.len() as int) =~= Seq::<SoeEvent>::empty());
            reveal(Seq::filter);
            assert(matching =~= out@);
        } else {
            assert(out@.len() == bounded);
        }
        assert(matching.take(if matching.len() < bounded_limit(limit) { matching.len() as int } else { bounded_limit(limit) }) =~= out@);
    }
    out
}

/// A merged point shows the received reading: whether or not the point was
/// known, the merge of a point of the same family has the received address,
/// type, value, quality and time tag, and the cause it came with; a known
/// point keeps the name, description and control mapping the user gave it,
/// and a new one counts its first report. A point of another family is refused.
pub proof fn merge_shows_the_received_reading(existing: Option<DataPoint>, incoming: DataPoint, cause: u16)
    ensures
        spec_merged_point(existing, incoming, cause, true) matches Some(m) && {
            &&& m.value_bits == incoming.value_bits
            &&& m.quality == incoming.quality
            &&& m.timestamp_ms == incoming.timestamp_ms
            &&& m.address == incoming.address
            &&& m.type_id == incoming.type_id
            &&& m.latest_cause == Some(cause)
        },
        existing is Some ==> spec_merged_point(existing, incoming, cause, false) is None,
        existing matches Some(e) ==> (spec_merged_point(existing, incoming, cause, true) matches Some(m)
            && m.name == e.name && m.description == e.description && m.control_ioa == e.control_ioa),
        existing is None ==> (spec_merged_point(existing, incoming, cause, true) matches Some(m)
            && m.report_count == Some(1u64) && m.name == incoming.name),
{
}

} // verus!
