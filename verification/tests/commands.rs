use iec104_simulator_backend::commands::{
    encode_asdu, encode_asdu_with_count, CounterFreeze, CounterInterrogationQualifier, Iec104Command,
    InterrogationQualifier, MasterCommands, QualifierMode, SelectExecute, SetpointQos,
};
use iec104_simulator_backend::cp56::{cp56_is_resolvable, encode_cp56_time2a, format_cp56_utc, parse_cp56_time2a, Cp56Time};
use iec104_simulator_backend::pending::command_cp56_text;
use iec104_simulator_backend::errors::Iec104ErrorCode;
use iec104_simulator_backend::is_control_command_type_id;

fn now() -> Cp56Time {
    Cp56Time {
        milliseconds: 1500,
        minutes: 30,
        hours: 12,
        day: 15,
        weekday: 1,
        month: 6,
        year: 2024,
        summer_time: false,
        invalid: false,
    }
}

#[test]
fn cp56_round_trips() {
    let bytes = encode_cp56_time2a(now());
    assert_eq!(bytes, [0xDC, 0x05, 30, 12, 15 + 32, 6, 24]);
    assert_eq!(parse_cp56_time2a(&bytes), now());
    let flagged = Cp56Time { invalid: true, summer_time: true, ..now() };
    let b = encode_cp56_time2a(flagged);
    assert_eq!(b[2], 30 + 128);
    assert_eq!(b[3], 12 + 128);
    assert_eq!(parse_cp56_time2a(&b), flagged);
}

#[test]
fn cp56_resolvability_follows_the_calendar() {
    assert!(cp56_is_resolvable(now()));
    assert!(cp56_is_resolvable(Cp56Time { month: 2, day: 29, year: 2024, ..now() }));
    assert!(!cp56_is_resolvable(Cp56Time { month: 2, day: 29, year: 2023, ..now() }));
    assert!(!cp56_is_resolvable(Cp56Time { hours: 24, ..now() }));
    assert!(!cp56_is_resolvable(Cp56Time { month: 13, ..now() }));
    assert!(!cp56_is_resolvable(Cp56Time { milliseconds: 60_000, ..now() }));
}

#[test]
fn single_command_select_is_framed() {
    let cmd = Iec104Command::SingleCommand { ioa: 1001, value: true, se: SelectExecute::Select, qu: 0 };
    let asdu = MasterCommands::build_asdu(1, &cmd, now()).unwrap();
    assert_eq!(asdu.type_id, 45);
    assert_eq!(asdu.cause, 6);
    assert_eq!(encode_asdu(&asdu), vec![45, 1, 6, 0, 1, 0, 0xE9, 0x03, 0x00, 0x81]);
    let cancel = Iec104Command::SingleCommand { ioa: 1001, value: false, se: SelectExecute::Cancel, qu: 1 };
    let asdu = MasterCommands::build_asdu(0x0102, &cancel, now()).unwrap();
    assert_eq!(asdu.cause, 8);
    assert_eq!(encode_asdu(&asdu), vec![45, 1, 8, 0, 0x02, 0x01, 0xE9, 0x03, 0x00, 0x84]);
}

#[test]
fn interrogations_and_clock_sync() {
    let gi = Iec104Command::GeneralInterrogation { qoi: InterrogationQualifier::Station };
    let asdu = MasterCommands::build_asdu(1, &gi, now()).unwrap();
    assert_eq!(encode_asdu(&asdu), vec![100, 1, 6, 0, 1, 0, 0, 0, 0, 20]);
    let group = Iec104Command::GeneralInterrogation { qoi: InterrogationQualifier::Group { group: 2 } };
    assert_eq!(MasterCommands::build_asdu(1, &group, now()).unwrap().data, vec![0, 0, 0, 22]);
    let ci = Iec104Command::CounterInterrogation {
        qcc: CounterInterrogationQualifier { request: 5, freeze: CounterFreeze::Read },
    };
    assert_eq!(MasterCommands::build_asdu(1, &ci, now()).unwrap().data, vec![0, 0, 0, 5]);
    let sync = Iec104Command::ClockSynchronization { timestamp: None };
    let asdu = MasterCommands::build_asdu(1, &sync, now()).unwrap();
    assert_eq!(asdu.type_id, 103);
    assert_eq!(asdu.data, vec![0, 0, 0, 0xDC, 0x05, 30, 12, 47, 6, 24]);
    let read = Iec104Command::ReadCommand { ioa: 0x010203 };
    let asdu = MasterCommands::build_asdu(7, &read, now()).unwrap();
    assert_eq!((asdu.type_id, asdu.cause), (102, 6));
    assert_eq!(encode_asdu_with_count(&asdu, 1), vec![102, 1, 6, 0, 7, 0, 3, 2, 1]);
}

#[test]
fn set_points_carry_their_qualifier() {
    let cmd = Iec104Command::SetPointScaled {
        ioa: 2000,
        value: -2,
        qos: SetpointQos { ql: 0, se: SelectExecute::Execute },
    };
    let asdu = MasterCommands::build_asdu(1, &cmd, now()).unwrap();
    assert_eq!(asdu.type_id, 49);
    assert_eq!(asdu.data, vec![0xD0, 0x07, 0x00, 0xFE, 0xFF, 0x00]);
    let float = Iec104Command::SetPointShortFloat {
        ioa: 1,
        value_bits: 1.5f32.to_bits(),
        qos: SetpointQos { ql: 3, se: SelectExecute::Select },
    };
    let asdu = MasterCommands::build_asdu(1, &float, now()).unwrap();
    assert_eq!(asdu.data, vec![1, 0, 0, 0x00, 0x00, 0xC0, 0x3F, 0x83]);
}

#[test]
fn invalid_commands_are_refused() {
    let cmd = Iec104Command::SingleCommand { ioa: 1, value: true, se: SelectExecute::Execute, qu: 0 };
    let e = MasterCommands::build_asdu(0, &cmd, now()).unwrap_err();
    assert_eq!(e.code, Iec104ErrorCode::InvalidCommonAddress);
    assert_eq!(e.message, "common address must be in 1..=65535");
    let far = Iec104Command::SingleCommand { ioa: 0x0100_0000, value: true, se: SelectExecute::Execute, qu: 0 };
    let e = MasterCommands::build_asdu(1, &far, now()).unwrap_err();
    assert_eq!(e.code, Iec104ErrorCode::InvalidObjectAddress);
    assert_eq!(e.message, "IOA 16777216 exceeds 24-bit range");
    let double = Iec104Command::DoubleCommand { ioa: 1, value: 3, se: SelectExecute::Execute, qu: 0 };
    let e = MasterCommands::build_asdu(1, &double, now()).unwrap_err();
    assert_eq!(e.code, Iec104ErrorCode::InvalidValue);
    assert_eq!(e.message, "double command value 3 is invalid, expected 1(off) or 2(on)");
    let qu = Iec104Command::SingleCommand { ioa: 1, value: true, se: SelectExecute::Execute, qu: 9 };
    let e = MasterCommands::build_asdu(1, &qu, now()).unwrap_err();
    assert_eq!(e.message, "QOC QU 9 is invalid, expected 0..=3");
    let raw = MasterCommands::build_asdu_with_qualifier_mode(1, &qu, QualifierMode::RawTest, now()).unwrap();
    assert_eq!(raw.data[3], 1 + 9 * 4);
    let gi = Iec104Command::GeneralInterrogation { qoi: InterrogationQualifier::Group { group: 17 } };
    let e = MasterCommands::build_asdu(1, &gi, now()).unwrap_err();
    assert_eq!(e.message, "QOI group 17 is invalid, expected 1..=16");
    let normalized = Iec104Command::SetPointNormalized {
        ioa: 1,
        value: None,
        qos: SetpointQos { ql: 0, se: SelectExecute::Execute },
    };
    let e = MasterCommands::build_asdu(1, &normalized, now()).unwrap_err();
    assert_eq!(e.message, "normalized setpoint must be finite and in [-1.0, 1.0)");
}

#[test]
fn control_types_are_recognized() {
    assert!(is_control_command_type_id(45));
    assert!(is_control_command_type_id(64));
    assert!(!is_control_command_type_id(52));
    assert!(!is_control_command_type_id(100));
}

#[test]
fn command_times_are_shown_as_utc_text() {
    let t = Cp56Time { milliseconds: 9026, minutes: 8, hours: 7, day: 5, weekday: 2, month: 3, year: 2024, summer_time: false, invalid: false };
    assert_eq!(format_cp56_utc(t), "2024-03-05 07:08:09.026 UTC");
    let timed = Iec104Command::SingleCommandTimed { ioa: 1, value: true, se: SelectExecute::Execute, qu: 0, timestamp: t };
    assert_eq!(command_cp56_text(&timed).as_deref(), Some("2024-03-05 07:08:09.026 UTC"));
    let sync = Iec104Command::ClockSynchronization { timestamp: Some(now()) };
    assert_eq!(command_cp56_text(&sync).as_deref(), Some("2024-06-15 12:30:01.500 UTC"));
    assert_eq!(command_cp56_text(&Iec104Command::ClockSynchronization { timestamp: None }), None);
    let plain = Iec104Command::SingleCommand { ioa: 1, value: true, se: SelectExecute::Execute, qu: 0 };
    assert_eq!(command_cp56_text(&plain), None);
}

#[test]
fn commands_with_far_time_tags_are_still_validated() {
    let far = Cp56Time { year: 2150, ..now() };
    let timed = Iec104Command::SingleCommandTimed { ioa: 1, value: true, se: SelectExecute::Execute, qu: 0, timestamp: far };
    let err = MasterCommands::build_asdu(0, &timed, far).unwrap_err();
    assert_eq!(err.code, Iec104ErrorCode::InvalidCommonAddress);
    let wide = Iec104Command::DoubleCommandTimed { ioa: 0x0100_0000, value: 1, se: SelectExecute::Execute, qu: 0, timestamp: far };
    let err = MasterCommands::build_asdu(1, &wide, far).unwrap_err();
    assert_eq!(err.code, Iec104ErrorCode::InvalidObjectAddress);
    let bad_value = Iec104Command::DoubleCommandTimed { ioa: 1, value: 3, se: SelectExecute::Execute, qu: 0, timestamp: far };
    let err = MasterCommands::build_asdu(1, &bad_value, far).unwrap_err();
    assert_eq!(err.code, Iec104ErrorCode::InvalidValue);
}
