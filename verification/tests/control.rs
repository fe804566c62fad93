use iec104_simulator_backend::control::ensure_control_point;
use iec104_simulator_backend::registry::{QualityModel, TimestampModel, TypeDescriptor, TypeFamily, ValueModel};
use iec104_simulator_backend::commands::SelectExecute;
use iec104_simulator_backend::control::{
    dispatch_snapshot, response_snapshot, timeout_snapshot, ControlStatusKind, ControlTimeoutType,
};
use iec104_simulator_backend::ingest::{command_state_confirms, command_state_direction};
use iec104_simulator_backend::message_log::MessageDirection;
use iec104_simulator_backend::pending::CommandResolution;

#[test]
fn dispatch_sets_the_step_state() {
    let s = dispatch_snapshot(None, Some(SelectExecute::Select), Some("2024-01-01".to_string()), 5);
    assert_eq!(s.state, ControlStatusKind::Selected);
    assert_eq!(s.latest_cause, Some(6));
    assert_eq!(s.select_execute, Some(true));
    let e = dispatch_snapshot(Some(&s), Some(SelectExecute::Execute), None, 6);
    assert_eq!(e.state, ControlStatusKind::Executing);
    assert_eq!(e.command_cp56.as_deref(), Some("2024-01-01"));
    assert_eq!(e.select_execute, Some(false));
    let c = dispatch_snapshot(None, Some(SelectExecute::Cancel), None, 7);
    assert_eq!(c.state, ControlStatusKind::Idle);
    assert_eq!(c.latest_cause, Some(8));
    let d = dispatch_snapshot(None, None, None, 8);
    assert_eq!(d.state, ControlStatusKind::Executing);
    assert_eq!(d.select_execute, None);
}

#[test]
fn select_then_terminate_completes() {
    let selected = response_snapshot(None, CommandResolution::SelectionConfirmation, 7, Some(SelectExecute::Select), 100);
    assert_eq!(selected.state, ControlStatusKind::Selected);
    assert_eq!(selected.actcon_negative, Some(false));
    let done = response_snapshot(Some(selected), CommandResolution::ActivationTermination, 10, Some(SelectExecute::Execute), 200);
    assert_eq!(done.state, ControlStatusKind::Completed);
    assert_eq!(done.actcon_at_ms, Some(100));
    assert_eq!(done.actterm_at_ms, Some(200));
    assert_eq!(done.latest_cause, Some(10));
}

#[test]
fn negative_confirmation_and_timeouts() {
    let ng = response_snapshot(None, CommandResolution::ActivationNegative, 0x47, None, 1);
    assert_eq!(ng.state, ControlStatusKind::Ng);
    assert_eq!(ng.actcon_negative, Some(true));
    let t = timeout_snapshot(Some(ng), Some(SelectExecute::Select), 2);
    assert_eq!(t.state, ControlStatusKind::Timeout);
    assert_eq!(t.timeout_type, Some(ControlTimeoutType::Select));
    assert_eq!(t.actcon_negative, Some(true));
    let u = timeout_snapshot(None, Some(SelectExecute::Execute), 3);
    assert_eq!(u.timeout_type, Some(ControlTimeoutType::Execute));
    let cleared = response_snapshot(Some(u), CommandResolution::ActivationConfirmation, 7, None, 4);
    assert_eq!(cleared.timeout_type, None);
    assert_eq!(cleared.state, ControlStatusKind::Executing);
}

#[test]
fn command_states_are_logged_and_announced() {
    assert_eq!(command_state_direction(CommandResolution::ActivationNegative), MessageDirection::Error);
    assert_eq!(command_state_direction(CommandResolution::UnknownInformationObject), MessageDirection::Error);
    assert_eq!(command_state_direction(CommandResolution::ActivationConfirmation), MessageDirection::Received);
    assert!(command_state_confirms(CommandResolution::ActivationTermination));
    assert!(command_state_confirms(CommandResolution::RequestResponse));
    assert!(!command_state_confirms(CommandResolution::SelectionConfirmation));
    assert!(!command_state_confirms(CommandResolution::ActivationNegative));
    assert_eq!(CommandResolution::DeactivationConfirmation.as_str(), "deactivation-confirmation");
}

#[test]
fn control_points_are_created_or_retied() {
    let table = vec![TypeDescriptor {
        type_id: 45,
        name: "C_SC_NA_1".to_string(),
        ioa_len: 3,
        family: TypeFamily::Control,
        value_kind: ValueModel::Boolean,
        quality_kind: QualityModel::Absent,
        timestamp_kind: TimestampModel::Absent,
    }];
    let created = ensure_control_point(None, &table, "conn", Some(3), None, 1, 6001, 45, 99);
    assert_eq!(created.name, "单命令_6001");
    assert_eq!(created.data_type, "C_SC_NA_1");
    assert_eq!(created.common_address, Some(1));
    assert_eq!(created.timestamp_ms, 99);
    assert_eq!(created.value_bits, 0);
    let mut known = created.clone();
    known.name = "Breaker".to_string();
    let retied = ensure_control_point(Some(known), &table, "conn_2", Some(8), Some(4), 2, 6001, 45, 120);
    assert_eq!(retied.name, "Breaker");
    assert_eq!(retied.connection_id, "conn_2");
    assert_eq!(retied.link_profile_id, Some(3));
    assert_eq!(retied.slave_id, Some(4));
    assert_eq!(retied.common_address, Some(2));
    assert_eq!(retied.timestamp_ms, 99);
}
