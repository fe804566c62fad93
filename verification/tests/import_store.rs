use iec104_simulator_backend::import::PointTableImportTarget;
use iec104_simulator_backend::import_store::{import_store_step, start_import_store, StoreNext, StoreOp};

fn op(next: &StoreNext) -> StoreOp {
    match next {
        StoreNext::Do(op) => *op,
        _ => panic!("expected an operation"),
    }
}

#[test]
fn a_master_slave_import_is_read_then_written() {
    let (mut s, next) = start_import_store(PointTableImportTarget::MasterLinkSlave { slave_id: 4 }, 2);
    assert_eq!(op(&next), StoreOp::ReadSlave);
    assert_eq!(op(&import_store_step(&mut s, Ok(1))), StoreOp::ReadPoints);
    assert_eq!(op(&import_store_step(&mut s, Ok(5))), StoreOp::ReadAliases);
    assert_eq!(op(&import_store_step(&mut s, Ok(0))), StoreOp::WritePoints);
    assert_eq!(op(&import_store_step(&mut s, Ok(7))), StoreOp::WriteAliases);
    match import_store_step(&mut s, Ok(0)) {
        StoreNext::Stored { existing, stored_points, stored_aliases, runtime_applied } => {
            assert_eq!((existing, stored_points, stored_aliases, runtime_applied), (5, 7, 2, false));
        }
        _ => panic!("expected the stored counts"),
    }
}

#[test]
fn an_absent_slave_or_a_failed_read_ends_the_import() {
    let (mut s, _) = start_import_store(PointTableImportTarget::MasterLinkSlave { slave_id: 4 }, 0);
    match import_store_step(&mut s, Ok(0)) {
        StoreNext::Fail(code, message) => assert_eq!((code.as_str(), message.as_str()), ("SLAVE_NOT_FOUND", "从站不存在")),
        _ => panic!("expected a failure"),
    }
    let (mut s, _) = start_import_store(PointTableImportTarget::SlaveStationSlave { slave_id: 4 }, 0);
    import_store_step(&mut s, Ok(1));
    match import_store_step(&mut s, Err("disk".to_string())) {
        StoreNext::Fail(code, message) => {
            assert_eq!(code, "DB_TRANSACTION_FAILED");
            assert_eq!(message, "读取子从站点表失败: disk");
        }
        _ => panic!("expected a failure"),
    }
}

#[test]
fn a_failed_alias_write_rolls_back_points_and_aliases() {
    let (mut s, _) = start_import_store(PointTableImportTarget::MasterLinkSlave { slave_id: 4 }, 1);
    for outcome in [Ok(1), Ok(2), Ok(0), Ok(3)] {
        import_store_step(&mut s, outcome);
    }
    assert_eq!(op(&import_store_step(&mut s, Err("locked".to_string()))), StoreOp::RollbackPoints);
    assert_eq!(op(&import_store_step(&mut s, Err("ignored".to_string()))), StoreOp::RollbackAliases);
    match import_store_step(&mut s, Ok(0)) {
        StoreNext::Fail(code, message) => {
            assert_eq!(code, "DB_TRANSACTION_FAILED");
            assert_eq!(message, "保存 ASDU 别名失败: locked");
        }
        _ => panic!("expected a failure"),
    }
}

#[test]
fn a_failed_runtime_sync_rolls_back_and_restores_the_runtime() {
    let (mut s, _) = start_import_store(PointTableImportTarget::SlaveStationSlave { slave_id: 4 }, 1);
    for outcome in [Ok(1), Ok(2), Ok(0), Ok(3)] {
        import_store_step(&mut s, outcome);
    }
    assert_eq!(op(&import_store_step(&mut s, Ok(0))), StoreOp::SyncRuntime);
    assert_eq!(op(&import_store_step(&mut s, Err("down".to_string()))), StoreOp::RollbackPoints);
    assert_eq!(op(&import_store_step(&mut s, Ok(0))), StoreOp::RollbackAliases);
    assert_eq!(op(&import_store_step(&mut s, Ok(0))), StoreOp::RestoreRuntime);
    match import_store_step(&mut s, Err("still down".to_string())) {
        StoreNext::Fail(_, message) => assert_eq!(message, "子从站点表导入失败，持久化已回滚: down"),
        _ => panic!("expected a failure"),
    }

    let (mut s, _) = start_import_store(PointTableImportTarget::SlaveStationSlave { slave_id: 4 }, 1);
    for outcome in [Ok(1), Ok(2), Ok(0), Ok(3), Ok(0)] {
        import_store_step(&mut s, outcome);
    }
    import_store_step(&mut s, Err("down".to_string()));
    match import_store_step(&mut s, Err("locked".to_string())) {
        StoreNext::Fail(_, message) => assert_eq!(message, "子从站点表导入运行态同步失败且回滚持久化失败: down; rollback=locked"),
        _ => panic!("expected a failure"),
    }

    let (mut s, _) = start_import_store(PointTableImportTarget::SlaveStationSlave { slave_id: 4 }, 1);
    for outcome in [Ok(1), Ok(2), Ok(0), Ok(3), Ok(0)] {
        import_store_step(&mut s, outcome);
    }
    match import_store_step(&mut s, Ok(0)) {
        StoreNext::Stored { runtime_applied, stored_aliases, .. } => assert!(runtime_applied && stored_aliases == 1),
        _ => panic!("expected the stored counts"),
    }
}
