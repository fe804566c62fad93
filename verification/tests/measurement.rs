use iec104_simulator_backend::measurement::get_soe_events;
use iec104_simulator_backend::measurement::append_soe_records;
use iec104_simulator_backend::admission::{resolve_point_scope, MasterPointAdmission};
use iec104_simulator_backend::decoded::{
    DecodedAsdu, DecodedAsduBody, DecodedMeasurement, DecodedMeasurementQualityDetail, DecodedMeasurementTimestamp,
    DecodedMeasurementValue, DecodedQualityCommon,
};
use iec104_simulator_backend::ingest::{admit_events, admit_points};
use iec104_simulator_backend::measurement::{
    apply_latest_event_timestamp_to_points, extract_master_soe_measurements, latest_event_timestamp_for,
    map_quality_detail, merge_received_point, resolve_cp24_millis, resolve_measurement_timestamp, DataPoint,
    DataPointQualityDetail, DataPointTimestampDetail,
};
use iec104_simulator_backend::types::{PointDef, PointSource};

const NEW_YEAR_2024: i64 = 1_704_067_200_000;

fn cp56(ms: u16, minutes: u8, hours: u8, day: u8, month: u8, year: u16, invalid: bool) -> DecodedMeasurementTimestamp {
    DecodedMeasurementTimestamp::Cp56 {
        raw: [0; 7],
        milliseconds: ms,
        minutes,
        hours,
        day,
        month,
        year,
        weekday: 1,
        summer_time: false,
        invalid,
    }
}

fn quality() -> DecodedQualityCommon {
    DecodedQualityCommon { iv: false, nt: false, sb: false, bl: false }
}

fn point(address: u32, ca: Option<u16>, at: i64) -> DataPoint {
    DataPoint {
        connection_id: "conn".to_string(),
        link_profile_id: None,
        slave_id: None,
        common_address: ca,
        address,
        name: format!("P{address}"),
        description: None,
        control_ioa: None,
        gi_group: None,
        counter_group: None,
        type_id: 30,
        data_type: "M_SP_TB_1".to_string(),
        value_bits: 0,
        quality: 0,
        quality_common: None,
        quality_detail: None,
        business_usable: true,
        timestamp_ms: at,
        latest_event_timestamp_ms: None,
        timestamp_detail: None,
        report_count: None,
        latest_cause: None,
        point_source: None,
        control_status_snapshot: None,
    }
}

#[test]
fn cp56_tags_name_their_instant() {
    let (at, detail) = resolve_measurement_timestamp(Some(cp56(1500, 0, 0, 1, 1, 2024, false)), 5);
    assert_eq!(at, NEW_YEAR_2024 + 1500);
    assert!(matches!(detail, Some(DataPointTimestampDetail::Cp56 { resolved: Some(v), invalid: false, .. }) if v == NEW_YEAR_2024 + 1500));
    let (at, detail) = resolve_measurement_timestamp(Some(cp56(0, 0, 0, 30, 2, 2024, false)), 77);
    assert_eq!(at, 77);
    assert!(matches!(detail, Some(DataPointTimestampDetail::Cp56 { resolved: None, .. })));
    let (at, _) = resolve_measurement_timestamp(Some(cp56(0, 0, 0, 1, 1, 2024, true)), 78);
    assert_eq!(at, 78);
    let (at, detail) = resolve_measurement_timestamp(None, 79);
    assert_eq!(at, 79);
    assert!(detail.is_none());
}

#[test]
fn cp24_tags_take_the_nearest_hour() {
    let received = NEW_YEAR_2024 + 10 * 60_000;
    assert_eq!(resolve_cp24_millis(received, 0, 5, false), Some(NEW_YEAR_2024 + 5 * 60_000));
    assert_eq!(resolve_cp24_millis(received, 0, 55, false), Some(NEW_YEAR_2024 + 55 * 60_000 - 3_600_000));
    assert_eq!(resolve_cp24_millis(received, 0, 60, false), None);
    assert_eq!(resolve_cp24_millis(received, 0, 5, true), None);
    let detail = DecodedMeasurementTimestamp::Cp24 { raw: [0, 0, 5], milliseconds: 0, minutes: 5, invalid: false };
    assert_eq!(resolve_measurement_timestamp(Some(detail), received).0, NEW_YEAR_2024 + 5 * 60_000);
}

fn event_asdu(cause: u16) -> DecodedAsdu {
    let item = |ioa: u32, minutes: u8| DecodedMeasurement {
        ioa,
        value: DecodedMeasurementValue::Single { value: true },
        quality: 0,
        quality_common: quality(),
        quality_detail: DecodedMeasurementQualityDetail::Siq { raw: 1, spi: true, iv: false, nt: false, sb: false, bl: false },
        timestamp: Some(cp56(0, minutes, 0, 1, 1, 2024, false)),
    };
    DecodedAsdu {
        type_id: 30,
        cause,
        common_address: 4,
        body: DecodedAsduBody::Measurements { items: vec![item(10, 1), item(11, 2), item(10, 3)] },
    }
}

#[test]
fn spontaneous_event_reports_become_events() {
    let events = extract_master_soe_measurements("conn", Some(2), &event_asdu(3), 1_000);
    assert_eq!(events.len(), 3);
    assert_eq!(events[0].ioa, 10);
    assert_eq!(events[0].event_timestamp_ms, NEW_YEAR_2024 + 60_000);
    assert_eq!(events[0].common_address, 4);
    assert_eq!(events[0].logged_at_ms, 1_000);
    assert_eq!(events[0].slave_id, Some(2));
    assert!(matches!(events[0].quality_detail, DataPointQualityDetail::Siq { spi: true, .. }));
    assert!(extract_master_soe_measurements("conn", None, &event_asdu(20), 1_000).is_empty());
    let cp24_report = DecodedAsdu { type_id: 2, ..event_asdu(3) };
    assert!(extract_master_soe_measurements("conn", None, &cp24_report, 1_000).is_empty());
    let bit_strings = DecodedAsdu { type_id: 33, ..event_asdu(3) };
    assert!(extract_master_soe_measurements("conn", None, &bit_strings, 1_000).is_empty());
    let counters = DecodedAsdu { type_id: 37, ..event_asdu(3) };
    assert_eq!(extract_master_soe_measurements("conn", None, &counters, 1_000).len(), 3);
    assert_eq!(latest_event_timestamp_for(&events, 10), Some(NEW_YEAR_2024 + 3 * 60_000));
    assert_eq!(latest_event_timestamp_for(&events, 12), None);

    let mut points = vec![point(10, Some(4), 0), point(12, Some(4), 0)];
    apply_latest_event_timestamp_to_points(&mut points, &events);
    assert_eq!(points[0].latest_event_timestamp_ms, Some(NEW_YEAR_2024 + 3 * 60_000));
    assert_eq!(points[1].latest_event_timestamp_ms, None);
}

#[test]
fn merged_points_count_their_reports() {
    let first = merge_received_point(None, point(10, Some(4), 5), 3, true).unwrap();
    assert_eq!(first.report_count, Some(1));
    assert_eq!(first.latest_cause, Some(3));
    let mut renamed = point(10, None, 6);
    renamed.name = "incoming".to_string();
    let second = merge_received_point(Some(&first), renamed, 20, true).unwrap();
    assert_eq!(second.report_count, Some(2));
    assert_eq!(second.latest_cause, Some(20));
    assert_eq!(second.name, "P10");
    assert_eq!(second.common_address, Some(4));
    assert_eq!(second.timestamp_ms, 6);
    assert!(merge_received_point(Some(&second), point(10, None, 7), 3, false).is_none());
    let mut known = point(10, Some(4), 8);
    known.link_profile_id = Some(1);
    known.latest_event_timestamp_ms = Some(100);
    let mut received = point(10, Some(9), 9);
    received.link_profile_id = Some(2);
    received.slave_id = Some(5);
    received.latest_event_timestamp_ms = Some(200);
    let merged = merge_received_point(Some(&known), received, 3, true).unwrap();
    assert_eq!(merged.link_profile_id, Some(1));
    assert_eq!(merged.slave_id, Some(5));
    assert_eq!(merged.common_address, Some(4));
    assert_eq!(merged.latest_event_timestamp_ms, Some(100));
    assert_eq!(merged.timestamp_ms, 9);
    assert!(matches!(
        map_quality_detail(&DecodedMeasurementQualityDetail::Absent),
        DataPointQualityDetail::Absent
    ));
}

#[test]
fn admission_filters_points_and_events() {
    let scope = resolve_point_scope("conn", None);
    let mut admission = MasterPointAdmission::new();
    let disabled = PointDef {
        address: 11, name: "off".to_string(), type_id: 30, data_type: "M_SP_TB_1".to_string(), description: None,
        control_ioa: None, gi_group: None, counter_group: None, default_value: None, is_enabled: false,
        source: PointSource::Manual,
    };
    admission.replace_scope(&scope, 4, &vec![disabled], true);
    let kept = admit_points(&admission, &scope, 4, vec![point(10, None, 0), point(11, None, 0), point(11, Some(5), 0)]);
    assert_eq!(kept.iter().map(|p| (p.address, p.common_address)).collect::<Vec<_>>(), vec![(10, None), (11, Some(5))]);
    let events = extract_master_soe_measurements("conn", None, &event_asdu(3), 0);
    let admitted = admit_events(&admission, &scope, events);
    assert_eq!(admitted.iter().map(|e| e.ioa).collect::<Vec<_>>(), vec![10, 10]);
}

#[test]
fn event_log_numbers_and_caps_records() {
    let events = extract_master_soe_measurements("conn", None, &event_asdu(3), 0);
    let mut records = Vec::new();
    let mut next_id = 0u64;
    append_soe_records(&mut records, &mut next_id, &events, 4);
    assert_eq!(records.iter().map(|e| e.id).collect::<Vec<_>>(), vec![1, 2, 3]);
    append_soe_records(&mut records, &mut next_id, &events, 4);
    assert_eq!(records.iter().map(|e| e.id).collect::<Vec<_>>(), vec![3, 4, 5, 6]);
    assert_eq!(next_id, 6);
    append_soe_records(&mut records, &mut next_id, &Vec::new(), 1);
    assert_eq!(records.len(), 4);
    assert_eq!(get_soe_events(&records, Some(4), 10).iter().map(|e| e.id).collect::<Vec<_>>(), vec![5, 6]);
    assert_eq!(get_soe_events(&records, None, 0).iter().map(|e| e.id).collect::<Vec<_>>(), vec![3]);
}
