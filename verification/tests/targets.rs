use iec104_simulator_backend::targets::{resolve_request_target, TargetRefusal};

#[test]
fn named_slaves_must_belong_to_the_connection() {
    let ok = resolve_request_target(5, Ok(Some((2, 7))), Some(Some(2)), Ok(vec![]), 1).unwrap();
    assert_eq!(ok, (5, 7));
    let unknown_connection = resolve_request_target(5, Ok(Some((2, 7))), None, Ok(vec![]), 1).unwrap();
    assert_eq!(unknown_connection, (5, 7));
    let foreign = resolve_request_target(5, Ok(Some((3, 7))), Some(Some(2)), Ok(vec![]), 1).unwrap_err();
    assert_eq!(foreign.message(), "从站不属于当前链路连接");
    let adhoc = resolve_request_target(5, Ok(Some((3, 7))), Some(None), Ok(vec![]), 1).unwrap_err();
    assert!(matches!(adhoc, TargetRefusal::SlaveNotOnConnection));
    let missing = resolve_request_target(5, Ok(None), None, Ok(vec![]), 1).unwrap_err();
    assert_eq!(missing.message(), "从站不存在");
    let failed = resolve_request_target(5, Err("locked".to_string()), None, Ok(vec![]), 1).unwrap_err();
    assert_eq!(failed.message(), "读取从站失败: locked");
}

#[test]
fn unnamed_slaves_default_to_the_profile() {
    let rows = vec![(Some(4), 9, true), (Some(5), 3, true), (Some(6), 1, false)];
    assert_eq!(resolve_request_target(0, Err("unused".to_string()), Some(Some(2)), Ok(rows), 1).unwrap(), (5, 3));
    assert_eq!(resolve_request_target(0, Ok(None), Some(Some(2)), Ok(vec![(Some(6), 1, false)]), 11).unwrap(), (0, 11));
    assert_eq!(resolve_request_target(0, Ok(None), Some(None), Err("unused".to_string()), 11).unwrap(), (0, 11));
    assert_eq!(resolve_request_target(-1, Ok(None), None, Ok(vec![]), 11).unwrap(), (0, 11));
    let failed = resolve_request_target(0, Ok(None), Some(Some(2)), Err("io".to_string()), 1).unwrap_err();
    assert_eq!(failed.message(), "读取从站失败: io");
}
