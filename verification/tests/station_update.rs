use iec104_simulator_backend::api::{ApiErrorCode, StationConfig, StationType};
use iec104_simulator_backend::station_update::{
    start_station_update, station_update_reply, station_update_step, StationUpdateAction, StationUpdateEvent, StationUpdateStage,
};

#[test]
fn a_station_update_reads_writes_and_syncs() {
    let mut u = start_station_update();
    assert!(matches!(station_update_step(&mut u, StationUpdateEvent::StationRead(Ok(true))), StationUpdateAction::ReadDevices));
    assert!(matches!(
        station_update_step(&mut u, StationUpdateEvent::DevicesRead(Ok(Some(7)))),
        StationUpdateAction::WriteStation { common_address: 7 }
    ));
    assert!(matches!(station_update_step(&mut u, StationUpdateEvent::StationWritten(Ok(1))), StationUpdateAction::SyncRuntime));
    assert!(matches!(station_update_step(&mut u, StationUpdateEvent::RuntimeSynced(Ok(()))), StationUpdateAction::Reply(Ok(()))));
    assert_eq!(u.stage, StationUpdateStage::Finished);
    assert!(matches!(station_update_step(&mut u, StationUpdateEvent::RuntimeSynced(Ok(()))), StationUpdateAction::Ignore));
}

#[test]
fn a_failed_sync_rolls_the_row_back() {
    let mut u = start_station_update();
    station_update_step(&mut u, StationUpdateEvent::StationRead(Ok(true)));
    station_update_step(&mut u, StationUpdateEvent::DevicesRead(Ok(Some(1))));
    station_update_step(&mut u, StationUpdateEvent::StationWritten(Ok(1)));
    assert!(matches!(
        station_update_step(&mut u, StationUpdateEvent::RuntimeSynced(Err("busy".to_string()))),
        StationUpdateAction::RollBack
    ));
    match station_update_step(&mut u, StationUpdateEvent::RolledBack(Ok(()))) {
        StationUpdateAction::RestoreRuntimeAndReply(e) => {
            assert_eq!(e.code, ApiErrorCode::DbTransactionFailed);
            assert_eq!(e.message, "更新从站运行配置失败，持久化已回滚: busy");
        }
        other => panic!("unexpected {other:?}"),
    }
    let mut u = start_station_update();
    station_update_step(&mut u, StationUpdateEvent::StationRead(Ok(true)));
    station_update_step(&mut u, StationUpdateEvent::DevicesRead(Ok(Some(1))));
    station_update_step(&mut u, StationUpdateEvent::StationWritten(Ok(1)));
    station_update_step(&mut u, StationUpdateEvent::RuntimeSynced(Err("busy".to_string())));
    match station_update_step(&mut u, StationUpdateEvent::RolledBack(Err("locked".to_string()))) {
        StationUpdateAction::Reply(Err(e)) => assert_eq!(e.message, "更新从站运行配置失败且回滚持久化失败: busy; rollback=locked"),
        other => panic!("unexpected {other:?}"),
    }
}

#[test]
fn missing_rows_end_the_update() {
    let mut u = start_station_update();
    match station_update_step(&mut u, StationUpdateEvent::StationRead(Ok(false))) {
        StationUpdateAction::Reply(Err(e)) => assert_eq!(e.code, ApiErrorCode::StationNotFound),
        other => panic!("unexpected {other:?}"),
    }
    let mut u = start_station_update();
    station_update_step(&mut u, StationUpdateEvent::StationRead(Ok(true)));
    match station_update_step(&mut u, StationUpdateEvent::DevicesRead(Ok(None))) {
        StationUpdateAction::Reply(Err(e)) => assert_eq!(e.message, "监听端点缺少默认逻辑从站"),
        other => panic!("unexpected {other:?}"),
    }
    let mut u = start_station_update();
    station_update_step(&mut u, StationUpdateEvent::StationRead(Ok(true)));
    station_update_step(&mut u, StationUpdateEvent::DevicesRead(Ok(Some(2))));
    match station_update_step(&mut u, StationUpdateEvent::StationWritten(Ok(0))) {
        StationUpdateAction::Reply(Err(e)) => assert_eq!(e.message, "站点不存在"),
        other => panic!("unexpected {other:?}"),
    }
}

#[test]
fn a_successful_update_answers_with_the_new_configuration() {
    let config = StationConfig {
        id: "9".to_string(),
        name: "S".to_string(),
        station_type: StationType::Slave,
        host: "0.0.0.0".to_string(),
        port: 2404,
        common_address: 7,
        enabled: true,
    };
    let reply = station_update_reply(&config);
    assert_eq!(reply.point_defs_updated, 0);
    assert_eq!(reply.station.station_id, "9");
    assert_eq!(reply.station.station_type, "slave");
    assert_eq!((reply.station.port, reply.station.common_address, reply.station.enabled), (2404, 7, true));
}
