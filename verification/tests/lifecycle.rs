use iec104_simulator_backend::connection::targets_conflict;

#[test]
fn connection_target_conflict_preserves_profile_rules() {
    let address = "127.0.0.1:2404";
    let other_address = "127.0.0.1:2405";

    assert!(targets_conflict(address, Some(1), address, Some(1)));
    assert!(targets_conflict(address, None, address, Some(1)));
    assert!(!targets_conflict(address, Some(1), address, Some(2)));
    assert!(!targets_conflict(address, Some(1), other_address, Some(1)));
}
