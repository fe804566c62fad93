use iec104_simulator_backend::commands::{command_times_in_range, Iec104Command};
use iec104_simulator_backend::cp56::Cp56Time;
use iec104_simulator_backend::errors::Iec104ErrorCode;
use iec104_simulator_backend::file_transfer::{check_transfer_send_ready, transfer_iframe_text};
use iec104_simulator_backend::pending::{check_send_ready, sent_iframe_text};
use iec104_simulator_backend::supervision::{DataTransferState, TransportState};

#[test]
fn a_command_goes_out_only_on_a_started_connection() {
    let ready = Some((TransportState::Connected, DataTransferState::Started));
    assert!(check_send_ready("c1", true, true, ready, "t-1").is_ok());

    let e = check_send_ready("c1", false, true, ready, "t-1").unwrap_err();
    assert_eq!(e.code, Iec104ErrorCode::NotConnected);
    assert_eq!(e.message, "connection c1 not found");
    assert_eq!(e.trace_id.as_deref(), Some("t-1"));

    let e = check_send_ready("c1", true, false, ready, "t-2").unwrap_err();
    assert_eq!(e.message, "protocol context for c1 not found");
    let e = check_send_ready("c1", true, true, None, "t-3").unwrap_err();
    assert_eq!((e.code, e.message.as_str()), (Iec104ErrorCode::NotConnected, "connection c1 not found"));

    let e = check_send_ready("c1", true, true, Some((TransportState::Connected, DataTransferState::Stopped)), "t-4").unwrap_err();
    assert_eq!(e.code, Iec104ErrorCode::ProtocolState);
    assert_eq!(e.message, "data transfer not started: transport=Connected data_transfer=Stopped");
    assert_eq!(e.trace_id.as_deref(), Some("t-4"));
}

#[test]
fn sent_frames_are_logged_with_their_header() {
    assert_eq!(sent_iframe_text(45, 6, 1), "发送 I 帧 type_id=45 cot=6 ca=1");
    assert_eq!(transfer_iframe_text(122, 13, 300), "文件传输发送 I 帧 type_id=122 cot=13 ca=300");
}

#[test]
fn a_file_transfer_frame_goes_out_only_on_a_started_connection() {
    assert!(check_transfer_send_ready(true, true, Some(DataTransferState::Started)).is_ok());
    assert_eq!(check_transfer_send_ready(false, true, Some(DataTransferState::Started)).unwrap_err(), "连接不存在");
    assert_eq!(check_transfer_send_ready(true, false, Some(DataTransferState::Started)).unwrap_err(), "协议上下文不存在");
    assert_eq!(check_transfer_send_ready(true, true, None).unwrap_err(), "连接不存在");
    assert_eq!(check_transfer_send_ready(true, true, Some(DataTransferState::Starting)).unwrap_err(), "业务链路未启动(STARTDT)");
}

#[test]
fn command_time_tags_must_lie_in_the_century() {
    let t = |year: u16| Cp56Time { milliseconds: 0, minutes: 0, hours: 0, day: 1, weekday: 1, month: 1, year, summer_time: false, invalid: false };
    assert!(command_times_in_range(&Iec104Command::ClockSynchronization { timestamp: None }, t(2024)));
    assert!(!command_times_in_range(&Iec104Command::ClockSynchronization { timestamp: Some(t(2100)) }, t(2024)));
    assert!(!command_times_in_range(&Iec104Command::BitStringCommandTimed { ioa: 1, value: 0, timestamp: t(1999) }, t(2024)));
    assert!(command_times_in_range(&Iec104Command::ReadCommand { ioa: 1 }, t(1900)));
}
