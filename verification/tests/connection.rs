use iec104_simulator_backend::connection::{
    end_connection_task, handle_disconnect, prepare_connection_target, react_to_uframe, ConnectRefusal, UFrameKind,
};
use iec104_simulator_backend::pending::PendingCommand;
use iec104_simulator_backend::supervision::{LinkSupervisor, LinkTimerSettings};
use iec104_simulator_backend::connection::{plan_manual_data_transfer, ManualTransferStep};
use iec104_simulator_backend::connection::{
    reconnect_policy, release_connection_target, reserve_connection_target, ConnectionInfo, ConnectionTarget,
    LinkEvent, ReserveError,
};
use iec104_simulator_backend::supervision::{DataTransferState, TransportState};

fn connection(id: &str, addr: &str, profile: Option<i64>) -> ConnectionInfo {
    ConnectionInfo::new(id.to_string(), "1".to_string(), profile, addr.to_string(), true, 3, Some(6), 1_000)
}

#[test]
fn new_connection_records_its_start() {
    let c = connection("conn_a", "127.0.0.1:2404", Some(1));
    assert_eq!(c.transport_state, TransportState::Connected);
    assert_eq!(c.data_transfer_state, DataTransferState::Starting);
    assert_eq!(c.tx_apdu_count, 1);
    assert_eq!(c.tx_bytes, 6);
    assert_eq!(c.max_reconnect_attempts, 3);
    assert_eq!(c.connected_at, Some(1_000));
    let quiet = ConnectionInfo::new("c".to_string(), "1".to_string(), None, "h:1".to_string(), false, 3, None, 5);
    assert_eq!(quiet.data_transfer_state, DataTransferState::Stopped);
    assert_eq!(quiet.tx_apdu_count, 0);
    assert_eq!(quiet.max_reconnect_attempts, 0);
}

#[test]
fn link_events_move_the_connection_states() {
    let mut c = connection("conn_a", "127.0.0.1:2404", Some(1));
    c.apply_event(LinkEvent::DataTransferStarted, true);
    assert_eq!(c.data_transfer_state, DataTransferState::Started);
    c.apply_event(LinkEvent::Disconnected { will_reconnect: true }, true);
    assert_eq!(c.transport_state, TransportState::Connecting);
    assert_eq!(c.data_transfer_state, DataTransferState::Starting);
    assert!(c.reconnecting);
    c.apply_event(LinkEvent::ReconnectAttemptFailed { attempt: 2, max_attempts: 3 }, true);
    assert_eq!(c.reconnect_attempts, 2);
    c.apply_event(LinkEvent::ReconnectExhausted { attempts: 3, max_attempts: 3 }, true);
    assert_eq!(c.transport_state, TransportState::Error);
    assert_eq!(c.data_transfer_state, DataTransferState::Error);
    assert!(!c.reconnecting);
    c.apply_event(LinkEvent::Connected { is_reconnected: true, now_ms: 9 }, false);
    assert_eq!(c.transport_state, TransportState::Connected);
    assert_eq!(c.data_transfer_state, DataTransferState::Stopped);
    assert_eq!(c.connected_at, Some(9));
    c.apply_event(LinkEvent::LinkTimeout, false);
    assert_eq!(c.data_transfer_state, DataTransferState::Timeout);
}

#[test]
fn traffic_counters_saturate() {
    let mut c = connection("conn_a", "h:1", None);
    c.record_sent(2, 30);
    assert_eq!(c.tx_apdu_count, 3);
    assert_eq!(c.tx_bytes, 36);
    c.record_received(u64::MAX, 10);
    c.record_received(1, 10);
    assert_eq!(c.rx_apdu_count, u64::MAX);
    assert_eq!(c.rx_bytes, 20);
}

#[test]
fn reservations_refuse_conflicting_targets() {
    let active = vec![connection("conn_a", "127.0.0.1:2404", Some(1))];
    let mut targets: Vec<ConnectionTarget> = Vec::new();
    let refused = reserve_connection_target(&active, &mut targets, "127.0.0.1:2404", None).unwrap_err();
    assert_eq!(refused.message(), "重复连接被拒绝: 127.0.0.1:2404 已存在活动会话 conn_a");
    assert!(targets.is_empty());
    assert!(reserve_connection_target(&active, &mut targets, "127.0.0.1:2404", Some(2)).is_ok());
    let again = reserve_connection_target(&active, &mut targets, "127.0.0.1:2404", Some(2)).unwrap_err();
    assert!(matches!(again, ReserveError::Connecting { .. }));
    assert_eq!(again.message(), "重复连接被拒绝: 127.0.0.1:2404 正在建立连接");
}

#[test]
fn release_undoes_a_reservation() {
    let active: Vec<ConnectionInfo> = Vec::new();
    let mut targets = vec![ConnectionTarget { addr: "10.0.0.1:2404".to_string(), profile_id: Some(7) }];
    assert!(reserve_connection_target(&active, &mut targets, "10.0.0.2:2404", Some(1)).is_ok());
    assert_eq!(targets.len(), 2);
    release_connection_target(&mut targets, "10.0.0.2:2404", Some(1));
    assert_eq!(targets.len(), 1);
    assert_eq!(targets[0].addr, "10.0.0.1:2404");
    release_connection_target(&mut targets, "10.0.0.9:2404", Some(1));
    assert_eq!(targets.len(), 1);
}

#[test]
fn reconnection_waits_at_least_a_second() {
    assert_eq!(reconnect_policy(true, 5, 0), (5, 1_000));
    assert_eq!(reconnect_policy(false, 5, 3), (0, 3_000));
}

#[test]
fn manual_data_transfer_requests() {
    assert_eq!(plan_manual_data_transfer(None, true), ManualTransferStep::NotConnected);
    let mut c = connection("conn_a", "h:1", None);
    assert_eq!(plan_manual_data_transfer(Some(&c), true), ManualTransferStep::AlreadyThere);
    assert_eq!(plan_manual_data_transfer(Some(&c), false), ManualTransferStep::SendFrame);
    c.begin_manual_transfer(false);
    assert_eq!(c.data_transfer_state, DataTransferState::Stopping);
    c.finish_manual_transfer(Some(6));
    assert_eq!((c.tx_apdu_count, c.tx_bytes), (2, 12));
    assert_eq!(plan_manual_data_transfer(Some(&c), false), ManualTransferStep::AlreadyThere);
    c.begin_manual_transfer(true);
    c.finish_manual_transfer(None);
    assert_eq!(c.data_transfer_state, DataTransferState::Error);
    c.apply_event(LinkEvent::NetworkError, true);
    assert_eq!(plan_manual_data_transfer(Some(&c), true), ManualTransferStep::NotConnected);
}

#[test]
fn uframes_are_answered() {
    let act = react_to_uframe(UFrameKind::StartDtAct);
    assert_eq!(act.received_text, "收到 STARTDT_ACT");
    assert_eq!(act.reply, Some((UFrameKind::StartDtCon, "发送 STARTDT_CON")));
    assert_eq!(act.event, Some(LinkEvent::DataTransferStarted));
    let con = react_to_uframe(UFrameKind::StartDtCon);
    assert!(con.auto_gi && con.clears_test && con.reply.is_none());
    let test = react_to_uframe(UFrameKind::TestFrAct);
    assert_eq!(test.reply, Some((UFrameKind::TestFrCon, "发送 TESTFR_CON")));
    assert_eq!(test.event, None);
    let confirmed = react_to_uframe(UFrameKind::TestFrCon);
    assert_eq!(confirmed.hint, Some("test-frame-confirmed"));
    assert!(confirmed.clears_test);
    let stop = react_to_uframe(UFrameKind::StopDtCon);
    assert_eq!(stop.event, Some(LinkEvent::DataTransferStopped));
    let mut c = connection("conn_a", "h:1", None);
    c.apply_event(stop.event.unwrap(), true);
    assert_eq!(c.data_transfer_state, DataTransferState::Stopped);
    assert_eq!(c.transport_state, TransportState::Connected);
}

#[test]
fn a_stopped_master_does_not_connect() {
    let active = vec![connection("conn_a", "127.0.0.1:2404", Some(1))];
    let mut targets: Vec<ConnectionTarget> = Vec::new();
    let refused = prepare_connection_target(false, &active, &mut targets, "10.0.0.9:2404", None).unwrap_err();
    assert!(matches!(refused, ConnectRefusal::NotRunning));
    assert_eq!(refused.message(), "主站未启动，无法连接到从站");
    assert!(targets.is_empty());
    let taken = prepare_connection_target(true, &active, &mut targets, "127.0.0.1:2404", Some(1)).unwrap_err();
    assert_eq!(taken.message(), "重复连接被拒绝: 127.0.0.1:2404 已存在活动会话 conn_a");
    assert!(prepare_connection_target(true, &active, &mut targets, "10.0.0.9:2404", None).is_ok());
    assert_eq!(targets.len(), 1);
}

fn waiting(trace: &str, conn: &str) -> PendingCommand {
    PendingCommand {
        trace_id: trace.to_string(),
        connection_id: conn.to_string(),
        type_id: 45,
        link_profile_id: None,
        slave_id: None,
        common_address: 1,
        ioa: Some(1),
        select_execute: None,
        cp56: None,
        target_value_bits: None,
        qualifier: None,
        created_at_ms: 0,
    }
}

#[test]
fn a_dropped_connection_reconnects_or_ends() {
    let mut c = connection("conn_a", "127.0.0.1:2404", None);
    let mut sup = LinkSupervisor::new(LinkTimerSettings::new(30, 15, 10, 20, 8), true, 0);
    let mut queue = vec![waiting("t1", "conn_a"), waiting("t2", "conn_b")];
    let (text, goes_on) = handle_disconnect(&mut c, &mut sup, &mut queue, true, true, true, "127.0.0.1:2404", "reset");
    assert_eq!(text, "连接断开: 127.0.0.1:2404 (reset)");
    assert!(goes_on);
    assert_eq!(c.transport_state, TransportState::Connecting);
    assert_eq!(queue.len(), 1);
    assert_eq!(queue[0].trace_id, "t2");
    let (_, goes_on) = handle_disconnect(&mut c, &mut sup, &mut queue, true, false, true, "127.0.0.1:2404", "closed");
    assert!(!goes_on);
    assert_eq!(c.transport_state, TransportState::Disconnected);
    assert_eq!(c.data_transfer_state, DataTransferState::Stopped);

    let mut links = vec![connection("conn_a", "a:1", None), connection("conn_b", "b:1", None), connection("conn_a", "c:1", None)];
    let mut queue = vec![waiting("t1", "conn_a"), waiting("t2", "conn_b")];
    end_connection_task(&mut links, &mut queue, "conn_a");
    assert_eq!(links.len(), 1);
    assert_eq!(links[0].id, "conn_b");
    assert_eq!(queue.len(), 1);
}
