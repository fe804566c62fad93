use iec104_simulator_backend::admission::{data_point_key, resolve_point_scope};
use iec104_simulator_backend::measurement::DataPoint;
use iec104_simulator_backend::point_sync::{master_batch, master_key, slave_batch, slave_key, PointStoreSync, PointSyncScopeKind};

fn point(address: u32) -> DataPoint {
    DataPoint {
        connection_id: "conn".to_string(),
        link_profile_id: None,
        slave_id: None,
        common_address: Some(1),
        address,
        name: format!("P{address}"),
        description: None,
        control_ioa: None,
        gi_group: None,
        counter_group: None,
        type_id: 1,
        data_type: "M_SP_NA_1".to_string(),
        value_bits: 0,
        quality: 0,
        quality_common: None,
        quality_detail: None,
        business_usable: true,
        timestamp_ms: 0,
        latest_event_timestamp_ms: None,
        timestamp_detail: None,
        report_count: None,
        latest_cause: None,
        point_source: None,
        control_status_snapshot: None,
    }
}

#[test]
fn sync_keys_name_their_scope() {
    let k = master_key(data_point_key(&resolve_point_scope("conn_1", Some(-7)), 3, 100));
    assert_eq!(k.scope_kind, PointSyncScopeKind::ConfiguredSlave);
    assert_eq!(k.scope_id, "-7");
    assert_eq!((k.common_address, k.address), (3, 100));
    let l = master_key(data_point_key(&resolve_point_scope("conn_1", None), 3, 100));
    assert_eq!(l.scope_kind, PointSyncScopeKind::LiveConnection);
    assert_eq!(l.scope_id, "conn_1");
    let s = slave_key((65535, 9));
    assert_eq!(s.scope_kind, PointSyncScopeKind::SlaveCommonAddress);
    assert_eq!(s.scope_id, "65535");
}

#[test]
fn batches_keep_order_and_cursor() {
    let scope = resolve_point_scope("c", Some(2));
    let sync = PointStoreSync {
        cursor: 17,
        reset: false,
        upserts: vec![(data_point_key(&scope, 1, 5), point(5)), (data_point_key(&scope, 1, 6), point(6))],
        removed: vec![data_point_key(&scope, 1, 9)],
    };
    let batch = master_batch(sync);
    assert_eq!(batch.cursor, 17);
    assert!(!batch.reset);
    assert_eq!(batch.upserts.iter().map(|i| i.key.address).collect::<Vec<_>>(), vec![5, 6]);
    assert_eq!(batch.upserts[1].point.name, "P6");
    assert_eq!(batch.removed[0].scope_id, "2");
    let slave = slave_batch(PointStoreSync { cursor: 3, reset: true, upserts: vec![((4, 1), point(1))], removed: vec![(4, 2), (5, 3)] });
    assert!(slave.reset);
    assert_eq!(slave.upserts[0].key.scope_id, "4");
    assert_eq!(slave.removed.iter().map(|k| (k.common_address, k.address)).collect::<Vec<_>>(), vec![(4, 2), (5, 3)]);
}
