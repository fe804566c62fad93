use iec104_simulator_backend::ingest::{handle_command_response, resolve_slave_id, SlaveAddressRow};
use iec104_simulator_backend::message_log::MessageDirection;
use iec104_simulator_backend::admission::{resolve_point_scope, MasterPointAdmission};
use iec104_simulator_backend::commands::{Iec104Command, QualifierMode, SelectExecute};
use iec104_simulator_backend::cp56::Cp56Time;
use iec104_simulator_backend::errors::{Iec104ErrorCode, Iec104ExecutionError};
use iec104_simulator_backend::pending::{
    enqueue_pending_command, pending_ioa_matches, plan_command_dispatch, remove_pending_command_by_trace,
    remove_pending_commands_for_connection, resolution_for, resolve_pending_command_state_with_identity,
    settle_command_dispatch, take_expired_pending_commands, CommandDispatchReceipt, CommandResolution, CommandResponseIdentity, PendingCommand,
};
use iec104_simulator_backend::registry::{QualityModel, TimestampModel, TypeDescriptor, TypeFamily, ValueModel};
use iec104_simulator_backend::types::{PointDef, PointSource};

fn descriptor(type_id: u8, name: &str, family: TypeFamily, value: ValueModel) -> TypeDescriptor {
    TypeDescriptor {
        type_id,
        name: name.to_string(),
        ioa_len: 3,
        family,
        value_kind: value,
        quality_kind: QualityModel::Absent,
        timestamp_kind: TimestampModel::Absent,
    }
}

fn table() -> Vec<TypeDescriptor> {
    vec![
        descriptor(1, "M_SP_NA_1", TypeFamily::SinglePoint, ValueModel::Boolean),
        descriptor(45, "C_SC_NA_1", TypeFamily::Control, ValueModel::Boolean),
        descriptor(102, "C_RD_NA_1", TypeFamily::SystemCommand, ValueModel::Absent),
    ]
}

fn command(trace: &str, conn: &str, type_id: u8, ioa: Option<u32>, se: Option<SelectExecute>, at: i64) -> PendingCommand {
    PendingCommand {
        trace_id: trace.to_string(),
        connection_id: conn.to_string(),
        type_id,
        link_profile_id: None,
        slave_id: None,
        common_address: 1,
        ioa,
        select_execute: se,
        cp56: None,
        target_value_bits: None,
        qualifier: None,
        created_at_ms: at,
    }
}

fn now() -> Cp56Time {
    Cp56Time { milliseconds: 0, minutes: 0, hours: 0, day: 1, weekday: 1, month: 1, year: 2024, summer_time: false, invalid: false }
}

#[test]
fn missing_ioa_counts_as_zero() {
    assert!(pending_ioa_matches(Some(5), Some(5)));
    assert!(pending_ioa_matches(None, None));
    assert!(pending_ioa_matches(Some(0), None));
    assert!(pending_ioa_matches(None, Some(0)));
    assert!(!pending_ioa_matches(Some(5), None));
    assert!(!pending_ioa_matches(Some(5), Some(6)));
}

#[test]
fn responses_resolve_by_cause() {
    let select = command("t", "c", 45, Some(1), Some(SelectExecute::Select), 0);
    assert_eq!(resolution_for(&select, 45, 7), Some((CommandResolution::SelectionConfirmation, true)));
    let exec = command("t", "c", 45, Some(1), Some(SelectExecute::Execute), 0);
    assert_eq!(resolution_for(&exec, 45, 7), Some((CommandResolution::ActivationConfirmation, false)));
    assert_eq!(resolution_for(&exec, 45, 10), Some((CommandResolution::ActivationTermination, true)));
    assert_eq!(resolution_for(&exec, 45, 7 + 64), Some((CommandResolution::ActivationNegative, true)));
    assert_eq!(resolution_for(&exec, 45, 9), Some((CommandResolution::DeactivationConfirmation, true)));
    assert_eq!(resolution_for(&exec, 45, 3), None);
    let read = command("r", "c", 102, Some(9), None, 0);
    assert_eq!(resolution_for(&read, 1, 5), Some((CommandResolution::RequestResponse, true)));
    assert_eq!(resolution_for(&read, 102, 47), Some((CommandResolution::UnknownInformationObject, true)));
}

#[test]
fn confirmation_keeps_the_command_until_termination() {
    let table = table();
    let mut pending = Vec::new();
    enqueue_pending_command(&mut pending, command("a", "conn", 45, Some(100), Some(SelectExecute::Execute), 0));
    enqueue_pending_command(&mut pending, command("b", "conn", 45, Some(200), Some(SelectExecute::Execute), 0));
    let (cmd, state) = resolve_pending_command_state_with_identity(&mut pending, &table, "conn", 45, 7, 1, Some(200), None).unwrap();
    assert_eq!(cmd.trace_id, "b");
    assert_eq!(state, CommandResolution::ActivationConfirmation);
    assert_eq!(pending.len(), 2);
    let (cmd, state) = resolve_pending_command_state_with_identity(&mut pending, &table, "conn", 45, 10, 1, Some(200), None).unwrap();
    assert_eq!(cmd.trace_id, "b");
    assert_eq!(state, CommandResolution::ActivationTermination);
    assert_eq!(pending.len(), 1);
    assert!(resolve_pending_command_state_with_identity(&mut pending, &table, "other", 45, 10, 1, Some(100), None).is_none());
    assert_eq!(pending.len(), 1);
}

#[test]
fn identity_tells_commands_apart() {
    let table = table();
    let mut with_value = command("v", "conn", 45, Some(1), Some(SelectExecute::Execute), 0);
    with_value.target_value_bits = Some(1.0f64.to_bits());
    let mut pending = vec![with_value];
    let other = CommandResponseIdentity { target_value_bits: Some(0.0f64.to_bits()), qualifier: None, cp56: None };
    assert!(resolve_pending_command_state_with_identity(&mut pending, &table, "conn", 45, 10, 1, Some(1), Some(other)).is_none());
    let same = CommandResponseIdentity { target_value_bits: Some(1.0f64.to_bits()), qualifier: None, cp56: None };
    assert!(resolve_pending_command_state_with_identity(&mut pending, &table, "conn", 45, 10, 1, Some(1), Some(same)).is_some());
    assert!(pending.is_empty());
}

#[test]
fn read_commands_are_answered_by_spontaneous_reports() {
    let table = table();
    let mut pending = vec![command("r", "conn", 102, Some(9), None, 0)];
    let (cmd, state) = resolve_pending_command_state_with_identity(&mut pending, &table, "conn", 1, 5, 1, Some(9), None).unwrap();
    assert_eq!(cmd.trace_id, "r");
    assert_eq!(state, CommandResolution::RequestResponse);
    assert!(pending.is_empty());
}

#[test]
fn queues_are_pruned_by_trace_connection_and_age() {
    let mut pending = vec![
        command("a", "c1", 45, Some(1), None, 0),
        command("b", "c2", 45, Some(2), None, 0),
        command("c", "c1", 45, Some(3), None, 10_000),
    ];
    let expired = take_expired_pending_commands(&mut pending, "c1", 15_500, 15);
    assert_eq!(expired.iter().map(|c| c.trace_id.as_str()).collect::<Vec<_>>(), vec!["a"]);
    assert_eq!(pending.len(), 2);
    assert_eq!(remove_pending_command_by_trace(&mut pending, "c").map(|c| c.trace_id), Some("c".to_string()));
    assert!(remove_pending_command_by_trace(&mut pending, "zz").is_none());
    enqueue_pending_command(&mut pending, command("d", "c2", 45, Some(4), None, 0));
    remove_pending_commands_for_connection(&mut pending, "c2");
    assert!(pending.is_empty());
}

#[test]
fn dispatch_plans_record_the_command() {
    let admission = MasterPointAdmission::new();
    let cmd = Iec104Command::SingleCommand { ioa: 300, value: true, se: SelectExecute::Select, qu: 0 };
    let plan = plan_command_dispatch(&Vec::new(), &admission, "conn", Some(3), 0, 1, &cmd, QualifierMode::Standard, Some(1.0f64.to_bits()), now(), 42).unwrap();
    assert_eq!(plan.asdu.type_id, 45);
    assert_eq!(plan.pending.ioa, Some(300));
    assert_eq!(plan.pending.slave_id, None);
    assert_eq!(plan.pending.select_execute, Some(SelectExecute::Select));
    assert_eq!(plan.pending.created_at_ms, 42);
    assert_eq!(plan.pending.trace_id, plan.receipt.trace_id);
    assert_eq!(plan.receipt.trace_id.len(), 36);
    let id: Vec<char> = plan.receipt.trace_id.chars().collect();
    assert_eq!((id[8], id[13], id[14], id[18], id[23]), ('-', '-', '4', '-', '-'));
    assert!(matches!(id[19], '8' | '9' | 'a' | 'b'));
    assert!(id.iter().all(|c| *c == '-' || c.is_ascii_digit() || ('a'..='f').contains(c)));
    let second = plan_command_dispatch(&Vec::new(), &admission, "conn", None, 5, 1, &cmd, QualifierMode::Standard, None, now(), 43).unwrap();
    assert_ne!(second.receipt.trace_id, plan.receipt.trace_id);
    assert_eq!(second.pending.slave_id, Some(5));
}

#[test]
fn dispatch_refuses_busy_and_disabled_points() {
    let cmd = Iec104Command::SingleCommand { ioa: 300, value: true, se: SelectExecute::Execute, qu: 0 };
    let pending = vec![command("a", "conn", 45, Some(300), None, 0)];
    let e = plan_command_dispatch(&pending, &MasterPointAdmission::new(), "conn", None, 0, 1, &cmd, QualifierMode::Standard, None, now(), 0).unwrap_err();
    assert_eq!(e.code, Iec104ErrorCode::ProtocolState);
    assert_eq!(e.message, "a command is already pending for CA=1 IOA=300");
    assert!(e.trace_id.is_some());

    let mut admission = MasterPointAdmission::new();
    let def = PointDef {
        address: 300, name: "K".to_string(), type_id: 45, data_type: "C_SC_NA_1".to_string(), description: None,
        control_ioa: None, gi_group: None, counter_group: None, default_value: None, is_enabled: false,
        source: PointSource::Manual,
    };
    admission.replace_scope(&resolve_point_scope("conn", None), 1, &vec![def], true);
    let e = plan_command_dispatch(&Vec::new(), &admission, "conn", None, 0, 1, &cmd, QualifierMode::Standard, None, now(), 0).unwrap_err();
    assert_eq!(e.message, "configured point is disabled for CA=1 IOA=300");

    let bad = Iec104Command::SingleCommand { ioa: 300, value: true, se: SelectExecute::Execute, qu: 0 };
    let e = plan_command_dispatch(&Vec::new(), &admission, "conn", None, 0, 0, &bad, QualifierMode::Standard, None, now(), 0).unwrap_err();
    assert_eq!(e.code, Iec104ErrorCode::InvalidCommonAddress);
}

#[test]
fn command_responses_are_logged_and_announced() {
    let table = table();
    let admission = MasterPointAdmission::new();
    let mut pending = vec![command("a", "conn", 45, Some(100), Some(SelectExecute::Execute), 0)];
    let confirmation = handle_command_response(&mut pending, &admission, &table, "conn", 45, 7, 1, Some(100), None).unwrap();
    assert_eq!(confirmation.state, CommandResolution::ActivationConfirmation);
    assert_eq!(confirmation.log_text, "命令状态 trace_id=a state=activation-confirmation type_id=45 cot=7");
    assert_eq!(confirmation.log_direction, MessageDirection::Received);
    assert!(confirmation.update_control_snapshot);
    assert!(!confirmation.confirmed);
    assert_eq!(pending.len(), 1);
    let negative = handle_command_response(&mut pending, &admission, &table, "conn", 45, 10 + 64, 1, Some(100), None).unwrap();
    assert_eq!(negative.state, CommandResolution::ActivationNegative);
    assert_eq!(negative.log_direction, MessageDirection::Error);
    assert_eq!(negative.log_text, "命令状态 trace_id=a state=activation-negative type_id=45 cot=10");
    assert!(pending.is_empty());
    assert!(handle_command_response(&mut pending, &admission, &table, "conn", 45, 10, 1, Some(100), None).is_none());
}

#[test]
fn received_asdus_find_their_slave_by_common_address() {
    let rows = vec![
        SlaveAddressRow { id: Some(4), common_address: 2 },
        SlaveAddressRow { id: None, common_address: 3 },
        SlaveAddressRow { id: Some(9), common_address: 3 },
        SlaveAddressRow { id: Some(5), common_address: 2 },
    ];
    assert_eq!(resolve_slave_id(Some(&rows), 2), Some(4));
    assert_eq!(resolve_slave_id(Some(&rows), 3), None);
    assert_eq!(resolve_slave_id(Some(&rows), 7), None);
    assert_eq!(resolve_slave_id(None, 2), None);
}

#[test]
fn a_failed_send_takes_the_command_back_out_of_the_queue() {
    let mut queue = vec![command("t1", "conn", 45, Some(1), None, 0)];
    enqueue_pending_command(&mut queue, command("t2", "conn", 45, Some(2), None, 0));
    let receipt = CommandDispatchReceipt { trace_id: "t2".to_string(), type_id: 45, common_address: 1 };
    let failure = Iec104ExecutionError { code: Iec104ErrorCode::SendFailed, message: "send".to_string(), trace_id: Some("t2".to_string()) };
    let r = settle_command_dispatch(&mut queue, receipt, Err(failure));
    assert_eq!(r.unwrap_err().code, Iec104ErrorCode::SendFailed);
    assert_eq!(queue.len(), 1);
    assert_eq!(queue[0].trace_id, "t1");
    let receipt = CommandDispatchReceipt { trace_id: "t1".to_string(), type_id: 45, common_address: 1 };
    assert_eq!(settle_command_dispatch(&mut queue, receipt, Ok(())).unwrap().trace_id, "t1");
    assert_eq!(queue.len(), 1);
}
