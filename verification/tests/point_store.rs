use iec104_simulator_backend::admission::{data_point_key, resolve_point_scope, MasterPointAdmission};
use iec104_simulator_backend::ingest::store_received_measurements;
use iec104_simulator_backend::decoded::{DecodedMeasurementValue, DecodedQualityCommon};
use iec104_simulator_backend::measurement::{DataPoint, DataPointQualityDetail, SoeEvent};
use iec104_simulator_backend::point_store::{hydrate_soe_point_names, merge_received_points, MasterPointStore};
use iec104_simulator_backend::registry::{QualityModel, TimestampModel, TypeDescriptor, TypeFamily, ValueModel};

fn descriptor(type_id: u8, family: TypeFamily) -> TypeDescriptor {
    TypeDescriptor {
        type_id,
        name: format!("T{type_id}"),
        ioa_len: 3,
        family,
        value_kind: ValueModel::Boolean,
        quality_kind: QualityModel::Absent,
        timestamp_kind: TimestampModel::Absent,
    }
}

fn table() -> Vec<TypeDescriptor> {
    vec![
        descriptor(1, TypeFamily::SinglePoint),
        descriptor(30, TypeFamily::SinglePoint),
        descriptor(13, TypeFamily::ShortFloat),
    ]
}

fn point(address: u32, ca: Option<u16>, type_id: u8, at: i64) -> DataPoint {
    DataPoint {
        connection_id: "conn".to_string(),
        link_profile_id: None,
        slave_id: None,
        common_address: ca,
        address,
        name: format!("P{address}"),
        description: None,
        control_ioa: None,
        gi_group: None,
        counter_group: None,
        type_id,
        data_type: "T".to_string(),
        value_bits: 0,
        quality: 0,
        quality_common: None,
        quality_detail: None,
        business_usable: true,
        timestamp_ms: at,
        latest_event_timestamp_ms: None,
        timestamp_detail: None,
        report_count: None,
        latest_cause: None,
        point_source: None,
        control_status_snapshot: None,
    }
}

#[test]
fn received_points_are_merged_into_the_store() {
    let scope = resolve_point_scope("conn", Some(1));
    let mut store = MasterPointStore::new();
    let mut configured = point(10, None, 1, 0);
    configured.name = "Breaker".to_string();
    merge_received_points(&mut store, &scope, 20, &table(), &vec![configured]);
    assert_eq!(store.get(&data_point_key(&scope, 0, 10)).unwrap().report_count, Some(1));

    merge_received_points(&mut store, &scope, 3, &table(), &vec![point(10, Some(4), 30, 50)]);
    assert!(store.get(&data_point_key(&scope, 0, 10)).is_none());
    let merged = store.get(&data_point_key(&scope, 4, 10)).unwrap();
    assert_eq!(merged.name, "Breaker");
    assert_eq!(merged.report_count, Some(2));
    assert_eq!(merged.timestamp_ms, 50);
    assert_eq!(merged.latest_cause, Some(3));

    merge_received_points(&mut store, &scope, 3, &table(), &vec![point(10, Some(4), 13, 60)]);
    assert_eq!(store.get(&data_point_key(&scope, 4, 10)).unwrap().timestamp_ms, 50);

    let other = resolve_point_scope("conn", Some(2));
    assert!(store.get(&data_point_key(&other, 4, 10)).is_none());
}

#[test]
fn events_take_the_names_of_their_points() {
    let scope = resolve_point_scope("conn", None);
    let mut store = MasterPointStore::new();
    let mut p = point(10, Some(4), 30, 0);
    p.name = "Pump".to_string();
    merge_received_points(&mut store, &scope, 3, &table(), &vec![p]);
    let event = |ioa: u32| SoeEvent {
        id: 1,
        logged_at_ms: 0,
        event_timestamp_ms: 0,
        connection_id: "conn".to_string(),
        slave_id: None,
        point_name: None,
        common_address: 4,
        ioa,
        type_id: 30,
        cause: 3,
        value: DecodedMeasurementValue::Single { value: true },
        quality: 0,
        quality_common: DecodedQualityCommon { iv: false, nt: false, sb: false, bl: false },
        quality_detail: DataPointQualityDetail::Absent,
        timestamp_detail: None,
    };
    let mut events = vec![event(10), event(11)];
    hydrate_soe_point_names(&store, &scope, &mut events);
    assert_eq!(events[0].point_name.as_deref(), Some("Pump"));
    assert_eq!(events[1].point_name, None);
}

fn soe(ioa: u32, at: i64) -> SoeEvent {
    SoeEvent {
        id: 0,
        logged_at_ms: 0,
        event_timestamp_ms: at,
        connection_id: "conn".to_string(),
        slave_id: None,
        point_name: None,
        common_address: 4,
        ioa,
        type_id: 30,
        cause: 3,
        value: DecodedMeasurementValue::Single { value: true },
        quality: 0,
        quality_common: DecodedQualityCommon { iv: false, nt: false, sb: false, bl: false },
        quality_detail: DataPointQualityDetail::Absent,
        timestamp_detail: None,
    }
}

#[test]
fn received_reports_are_stored_with_their_events() {
    let scope = resolve_point_scope("conn", Some(1));
    let mut store = MasterPointStore::new();
    let mut records: Vec<SoeEvent> = Vec::new();
    let mut next_id = 0u64;
    let mut admission = MasterPointAdmission::new();
    let disabled = iec104_simulator_backend::types::PointDef {
        address: 11,
        name: "off".to_string(),
        type_id: 30,
        data_type: "T".to_string(),
        description: None,
        control_ioa: None,
        gi_group: None,
        counter_group: None,
        default_value: None,
        is_enabled: false,
        source: iec104_simulator_backend::types::PointSource::Manual,
    };
    admission.replace_scope(&scope, 4, &vec![disabled], true);
    let (points_stored, events_stored) = store_received_measurements(
        &mut store, &mut records, &mut next_id, &admission, &scope, 4, 3, &table(),
        vec![point(10, Some(4), 30, 5), point(11, Some(4), 30, 5)],
        vec![soe(10, 100), soe(10, 200), soe(11, 300)],
    );
    assert!(points_stored && events_stored);
    let stored = store.get(&data_point_key(&scope, 4, 10)).unwrap();
    assert_eq!(stored.latest_event_timestamp_ms, Some(200));
    assert!(store.get(&data_point_key(&scope, 4, 11)).is_none());
    assert_eq!(records.len(), 2);
    assert_eq!(records[0].id, 1);
    assert_eq!(records[1].id, 2);
    assert_eq!(records[0].point_name.as_deref(), Some("P10"));
    assert_eq!(next_id, 2);
    let (p, e) = store_received_measurements(&mut store, &mut records, &mut next_id, &admission, &scope, 4, 3, &table(), vec![], vec![]);
    assert!(!p && !e);
    assert_eq!(records.len(), 2);
}
