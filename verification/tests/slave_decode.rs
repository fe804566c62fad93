use iec104_simulator_backend::decoded::{
    CommandQualifier, DecodedAsdu, DecodedAsduBody, DecodedCommand, DecodedCommandDetail, DecodedInterrogation,
};
use iec104_simulator_backend::errors::Iec104ErrorCode;
use iec104_simulator_backend::slave_decode::{
    command_action_from_cot, decode_slave_command, parse_cause, CommandCotAction, SlaveCommandEvent,
};

fn single(ioa: u32, raw: u8, select: bool, timestamp: Option<Vec<u8>>) -> DecodedCommand {
    DecodedCommand {
        ioa,
        qualifier: CommandQualifier::Sco { raw },
        timestamp,
        detail: DecodedCommandDetail::Single { value: true, select },
    }
}

fn commands(type_id: u8, cause: u16, items: Vec<DecodedCommand>) -> DecodedAsdu {
    DecodedAsdu { type_id, cause, common_address: 1, body: DecodedAsduBody::Commands { items } }
}

#[test]
fn causes_are_split_and_checked() {
    let p = parse_cause(6 + 64 + 128 + 3 * 256).unwrap();
    assert_eq!(p.cot, 6);
    assert!(p.negative);
    assert!(p.test);
    assert_eq!(p.origin, 3);
    let e = parse_cause(3).unwrap_err();
    assert_eq!(e.code, Iec104ErrorCode::InvalidValue);
    assert_eq!(e.message, "unsupported command cause of transmission: 3");
    assert_eq!(command_action_from_cot(8), CommandCotAction::Deactivation);
    assert_eq!(command_action_from_cot(6), CommandCotAction::Activation);
}

#[test]
fn single_commands_become_control_events() {
    let events = decode_slave_command(&commands(45, 6, vec![single(100, 0x81, true, None)])).unwrap();
    assert_eq!(events.len(), 1);
    match events[0] {
        SlaveCommandEvent::SingleControl { type_id, ioa, value, select, action, .. } => {
            assert_eq!((type_id, ioa, value, select), (45, 100, true, true));
            assert_eq!(action, CommandCotAction::Activation);
        },
        _ => panic!("expected a single control"),
    }
    let cancel = decode_slave_command(&commands(45, 8, vec![single(100, 0x80, true, None)])).unwrap();
    assert!(matches!(cancel[0], SlaveCommandEvent::SingleControl { action: CommandCotAction::Deactivation, .. }));
}

#[test]
fn negative_confirmations_carry_no_command() {
    let events = decode_slave_command(&commands(45, 6 + 64, vec![single(100, 0x81, true, None)])).unwrap();
    assert!(events.is_empty());
}

#[test]
fn command_faults_are_reported() {
    let qu = decode_slave_command(&commands(45, 6, vec![single(100, 4 * 5, false, None)])).unwrap_err();
    assert_eq!(qu.code, Iec104ErrorCode::InvalidQualifier);
    assert_eq!(qu.message, "SCO QOC.QU 5 is invalid, expected 0..=3");
    let wrong = DecodedCommand {
        ioa: 1,
        qualifier: CommandQualifier::Dco { raw: 0x05 },
        timestamp: None,
        detail: DecodedCommandDetail::Single { value: true, select: false },
    };
    let e = decode_slave_command(&commands(45, 6, vec![wrong])).unwrap_err();
    assert_eq!(e.message, "SCO qualifier type mismatch, got 0b00000101");
    let timed = decode_slave_command(&commands(45, 6, vec![single(1, 1, false, Some(vec![0; 7]))])).unwrap_err();
    assert_eq!(timed.message, "type 45 must not contain CP56Time2a");
    let untimed = decode_slave_command(&commands(58, 6, vec![single(1, 1, false, None)])).unwrap_err();
    assert_eq!(untimed.message, "type 58 requires CP56Time2a");
    let short = decode_slave_command(&commands(58, 6, vec![single(1, 1, false, Some(vec![0; 5]))])).unwrap_err();
    assert_eq!(short.message, "type 58 CP56Time2a length must be 7, got 5");
    let far = decode_slave_command(&commands(45, 6, vec![single(0x0100_0000, 1, false, None)])).unwrap_err();
    assert_eq!(far.code, Iec104ErrorCode::InvalidObjectAddress);
}

#[test]
fn interrogations_are_checked() {
    let asdu = DecodedAsdu {
        type_id: 100,
        cause: 6,
        common_address: 1,
        body: DecodedAsduBody::Interrogations { items: vec![DecodedInterrogation { ioa: 0, qualifier: 20 }] },
    };
    let events = decode_slave_command(&asdu).unwrap();
    assert!(matches!(events[0], SlaveCommandEvent::GeneralInterrogation { ioa: 0, qualifier: 20 }));
    let bad = DecodedAsdu {
        body: DecodedAsduBody::Interrogations { items: vec![DecodedInterrogation { ioa: 0, qualifier: 40 }] },
        ..asdu.clone()
    };
    assert_eq!(decode_slave_command(&bad).unwrap_err().message, "QOI 40 is invalid, expected 20..=36");
    let raw = DecodedAsdu { body: DecodedAsduBody::Raw, ..asdu };
    let e = decode_slave_command(&raw).unwrap_err();
    assert_eq!(e.code, Iec104ErrorCode::UnsupportedCommand);
    assert_eq!(e.message, "unsupported command type_id=100");
}
