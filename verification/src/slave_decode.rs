//! Decoding of the commands a slave receives from its master.

use vstd::prelude::*;

use crate::commands::{DLT_TEST_FBP, Failure, ioa_failure, validate_ioa};
use crate::cp56::{Cp56Time, cp56_fields, cp56_resolvable, cp56_is_resolvable, parse_cp56_time2a, valid_civil_date};
use crate::decoded::{CommandQualifier, DecodedAsdu, DecodedAsduBody, DecodedCommand, DecodedCommandDetail, DecodedInterrogation};
use crate::errors::{Iec104ErrorCode, Iec104ValidationError, err_view};
use crate::text::{bin8, decimal, join2, join3, text_then_number, text_with_number, u64_decimal, u8_binary};

verus! {

/// The seven raw bytes of a CP56Time2a time tag.
pub type Cp56Raw = (u8, u8, u8, u8, u8, u8, u8);

pub open spec fn raw_of(v: Seq<u8>) -> Cp56Raw {
    (v[0], v[1], v[2], v[3], v[4], v[5], v[6])
}

/// Activation (COT 6) or deactivation (COT 8) of a command.
#[derive(Clone, Copy, Debug, PartialEq, Eq, Structural)]
pub enum CommandCotAction {
    Activation,
    Deactivation,
}

/// Value of a received set-point command (a short float as its IEEE 754 bits).
#[derive(Clone, Copy, Debug, PartialEq, Eq, Structural)]
pub enum SetPointCommandValue {
    Normalized { value: i16 },
    Scaled { value: i16 },
    Float { bits: u32 },
}

/// A command a slave received, after validation.
#[derive(Clone, Copy, Debug)]
pub enum SlaveCommandEvent {
    GeneralInterrogation { ioa: u32, qualifier: u8 },
    CounterInterrogation { ioa: u32, qualifier: u8 },
    ClockSynchronization { ioa: u32, time: Cp56Time },
    TestCommand { type_id: u8, ioa: u32, pattern: u16, timestamp: Option<Cp56Raw> },
    ResetProcess { ioa: u32, qualifier: u8 },
    SingleControl { type_id: u8, ioa: u32, value: bool, select: bool, action: CommandCotAction, qualifier: CommandQualifier, timestamp: Option<Cp56Raw> },
    DoubleControl { type_id: u8, ioa: u32, value: u8, select: bool, action: CommandCotAction, qualifier: CommandQualifier, timestamp: Option<Cp56Raw> },
    RegulatingStep { type_id: u8, ioa: u32, step: u8, select: bool, action: CommandCotAction, qualifier: CommandQualifier, timestamp: Option<Cp56Raw> },
    SetPoint { type_id: u8, ioa: u32, value: SetPointCommandValue, action: CommandCotAction, qualifier: u8, timestamp: Option<Cp56Raw> },
    BitStringCommand { type_id: u8, ioa: u32, value: u32, timestamp: Option<Cp56Raw> },
    ReadCommand { ioa: u32 },
}

/// The parts of a cause of transmission: reason (bit 0-5), P/N (bit 6), test (bit 7), originator (high byte).
#[derive(Clone, Copy, Debug, PartialEq, Eq, Structural)]
pub struct CauseParts {
    pub cot: u8,
    pub negative: bool,
    pub test: bool,
    pub origin: u8,
}

pub open spec fn spec_cause_parts(cause: u16) -> CauseParts {
    CauseParts {
        cot: (cause % 64) as u8,
        negative: (cause / 64) % 2 == 1,
        test: (cause / 128) % 2 == 1,
        origin: (cause / 256) as u8,
    }
}

pub open spec fn cause_failure(cause: u16) -> Failure {
    let cot = (cause % 64) as u8;
    if cot == 6 || cot == 8 { None } else {
        Some((Iec104ErrorCode::InvalidValue, "unsupported command cause of transmission: "@ + decimal(cot as nat)))
    }
}

/// Splits a cause of transmission and accepts only activation (6) and deactivation (8).
pub fn parse_cause(cause: u16) -> (r: Result<CauseParts, Iec104ValidationError>)
    ensures
        match r {
            Ok(p) => cause_failure(cause) is None && p == spec_cause_parts(cause),
            Err(e) => cause_failure(cause) == Some(err_view(e)),
        },
{
    let cot = (cause % 64) as u8;
    let parts = CauseParts {
        cot,
        negative: (cause / 64) % 2 == 1,
        test: (cause / 128) % 2 == 1,
        origin: (cause / 256) as u8,
    };
    if cot == 6 || cot == 8 {
        return Ok(parts);
    }
    Err(Iec104ValidationError {
        code: Iec104ErrorCode::InvalidValue,
        message: text_then_number("unsupported command cause of transmission: ", cot as u64),
    })
}

pub open spec fn spec_action(cot: u8) -> CommandCotAction {
    if cot == 8 { CommandCotAction::Deactivation } else { CommandCotAction::Activation }
}

/// Deactivation for COT 8, activation otherwise.
pub fn command_action_from_cot(cot: u8) -> (r: CommandCotAction)
    ensures
        r == spec_action(cot),
{
    if cot == 8 { CommandCotAction::Deactivation } else { CommandCotAction::Activation }
}

pub type Outcome<T> = Result<T, (Iec104ErrorCode, Seq<char>)>;

pub open spec fn type_prefix(type_id: u8) -> Seq<char> {
    "type "@ + decimal(type_id as nat)
}

/// Time tag check of a control command: types 58-64 need a valid seven-byte
/// CP56Time2a, types 45-51 must not carry one.
pub open spec fn control_timestamp_outcome(type_id: u8, raw: Option<Seq<u8>>) -> Outcome<Option<Cp56Raw>> {
    if 58 <= type_id <= 64 {
        match raw {
            None => Err((Iec104ErrorCode::InvalidValue, type_prefix(type_id) + " requires CP56Time2a"@)),
            Some(v) => if v.len() != 7 {
                Err((Iec104ErrorCode::InvalidValue, type_prefix(type_id) + " CP56Time2a length must be 7, got "@ + decimal(v.len())))
            } else if cp56_fields(v).invalid {
                Err((Iec104ErrorCode::InvalidValue, type_prefix(type_id) + " CP56Time2a is marked invalid"@))
            } else {
                Ok(Some(raw_of(v)))
            },
        }
    } else if 45 <= type_id <= 51 && raw is Some {
        Err((Iec104ErrorCode::InvalidValue, type_prefix(type_id) + " must not contain CP56Time2a"@))
    } else {
        Ok(None)
    }
}

pub open spec fn opt_view(raw: Option<Vec<u8>>) -> Option<Seq<u8>> {
    match raw {
        Some(v) => Some(v@),
        None => None,
    }
}

fn invalid_value(message: String) -> (r: Iec104ValidationError)
    ensures
        r.code == Iec104ErrorCode::InvalidValue && r.message@ == message@,
{
    Iec104ValidationError { code: Iec104ErrorCode::InvalidValue, message }
}

fn invalid_qualifier(message: String) -> (r: Iec104ValidationError)
    ensures
        r.code == Iec104ErrorCode::InvalidQualifier && r.message@ == message@,
{
    Iec104ValidationError { code: Iec104ErrorCode::InvalidQualifier, message }
}

fn to_raw(v: &Vec<u8>) -> (r: Cp56Raw)
    requires
        v@.len() == 7,
    ensures
        r == raw_of(v@),
{
    (v[0], v[1], v[2], v[3], v[4], v[5], v[6])
}

fn decode_control_timestamp(type_id: u8, raw: &Option<Vec<u8>>) -> (r: Result<Option<Cp56Raw>, Iec104ValidationError>)
    ensures
        match r {
            Ok(t) => control_timestamp_outcome(type_id, opt_view(*raw)) == Outcome::<Option<Cp56Raw>>::Ok(t),
            Err(e) => control_timestamp_outcome(type_id, opt_view(*raw)) == Outcome::<Option<Cp56Raw>>::Err(err_view(e)),
        },
{
    let prefix = text_then_number("type ", type_id as u64);
    if 58 <= type_id && type_id <= 64 {
        match raw {
            None => {
                return Err(invalid_value(join2(prefix.as_str(), " requires CP56Time2a")));
            },
            Some(v) => {
                if v.len() != 7 {
                    let got = u64_decimal(v.len() as u64);
                    return Err(invalid_value(join3(prefix.as_str(), " CP56Time2a length must be 7, got ", got.as_str())));
                }
                let bytes: [u8; 7] = [v[0], v[1], v[2], v[3], v[4], v[5], v[6]];
                assert(bytes@ =~= v@);
                let parsed = parse_cp56_time2a(&bytes);
                if parsed.invalid {
                    return Err(invalid_value(join2(prefix.as_str(), " CP56Time2a is marked invalid")));
                }
                return Ok(Some(to_raw(v)));
            },
        }
    }
    if 45 <= type_id && type_id <= 51 && raw.is_some() {
        return Err(invalid_value(join2(prefix.as_str(), " must not contain CP56Time2a")));
    }
    Ok(None)
}

/// QU field of a command qualifier octet.
pub open spec fn qu_of(raw: u8) -> u8 {
    ((raw / 4) % 32) as u8
}

/// Check of the qualifier of a single (kind 0), double (kind 1) or step (kind 2) command.
pub open spec fn control_qualifier_failure(kind: int, q: CommandQualifier) -> Failure {
    let name = if kind == 0 { "SCO"@ } else if kind == 1 { "DCO"@ } else { "RCO"@ };
    let matches_kind = if kind == 0 { q is Sco } else if kind == 1 { q is Dco } else { q is Rco };
    if matches_kind {
        if qu_of(q.spec_as_u8()) <= 3 { None } else {
            Some((Iec104ErrorCode::InvalidQualifier, name + " QOC.QU "@ + decimal(qu_of(q.spec_as_u8()) as nat) + " is invalid, expected 0..=3"@))
        }
    } else {
        Some((Iec104ErrorCode::InvalidQualifier, name + " qualifier type mismatch, got "@ + bin8(q.spec_as_u8())))
    }
}

fn validate_control_qualifier(kind: u8, q: CommandQualifier) -> (r: Result<(), Iec104ValidationError>)
    requires
        kind <= 2,
    ensures
        match r {
            Ok(_) => control_qualifier_failure(kind as int, q) is None,
            Err(e) => control_qualifier_failure(kind as int, q) == Some(err_view(e)),
        },
{
    let name = if kind == 0 { "SCO" } else if kind == 1 { "DCO" } else { "RCO" };
    let matches_kind = match q {
        CommandQualifier::Sco { .. } => kind == 0,
        CommandQualifier::Dco { .. } => kind == 1,
        CommandQualifier::Rco { .. } => kind == 2,
        _ => false,
    };
    let raw = q.as_u8();
    if matches_kind {
        let qu = (raw / 4) % 32;
        if qu <= 3 {
            return Ok(());
        }
        let n = u64_decimal(qu as u64);
        let head = join3(name, " QOC.QU ", n.as_str());
        return Err(invalid_qualifier(join2(head.as_str(), " is invalid, expected 0..=3")));
    }
    let bits = u8_binary(raw);
    Err(invalid_qualifier(join3(name, " qualifier type mismatch, got ", bits.as_str())))
}

/// Check of a double command state (kind 1) or a step command state (kind 2).
pub open spec fn state_failure(kind: int, value: u8) -> Failure {
    if value == 1 || value == 2 { None } else if kind == 1 {
        Some((Iec104ErrorCode::InvalidValue, "DCO state "@ + decimal(value as nat) + " is invalid, expected 1(off) or 2(on)"@))
    } else {
        Some((Iec104ErrorCode::InvalidValue, "RCO state "@ + decimal(value as nat) + " is invalid, expected 1(decrease) or 2(increase)"@))
    }
}

fn validate_double_value(value: u8) -> (r: Result<(), Iec104ValidationError>)
    ensures
        match r {
            Ok(_) => state_failure(1, value) is None,
            Err(e) => state_failure(1, value) == Some(err_view(e)),
        },
{
    if value == 1 || value == 2 {
        return Ok(());
    }
    Err(invalid_value(text_with_number("DCO state ", value as u64, " is invalid, expected 1(off) or 2(on)")))
}

fn validate_step_value(value: u8) -> (r: Result<(), Iec104ValidationError>)
    ensures
        match r {
            Ok(_) => state_failure(2, value) is None,
            Err(e) => state_failure(2, value) == Some(err_view(e)),
        },
{
    if value == 1 || value == 2 {
        return Ok(());
    }
    Err(invalid_value(text_with_number("RCO state ", value as u64, " is invalid, expected 1(decrease) or 2(increase)")))
}

/// The QOS of a set-point, or the mismatch failure.
pub open spec fn setpoint_qualifier_outcome(q: CommandQualifier) -> Outcome<u8> {
    match q {
        CommandQualifier::Qos { raw } => Ok(raw),
        _ => Err((Iec104ErrorCode::InvalidQualifier, "QOS qualifier type mismatch, got "@ + bin8(q.spec_as_u8()))),
    }
}

/// The QRP of a reset process command, or its failure.
pub open spec fn reset_qualifier_outcome(q: CommandQualifier) -> Outcome<u8> {
    match q {
        CommandQualifier::Qrp { raw } => if raw == 1 || raw == 2 { Ok(raw) } else {
            Err((Iec104ErrorCode::InvalidQualifier, "QRP "@ + decimal(raw as nat) + " is invalid, expected 1 or 2"@))
        },
        _ => Err((Iec104ErrorCode::InvalidQualifier, "QRP qualifier type mismatch, got "@ + bin8(q.spec_as_u8()))),
    }
}

/// The failure of resolving a time tag to a date and time of day.
pub open spec fn cp56_time_failure(t: Cp56Time) -> Failure {
    if !valid_civil_date(t.year as int, t.month as int, t.day as int) {
        Some((Iec104ErrorCode::InvalidValue, "invalid CP56 date: year="@ + decimal(t.year as nat) + " month="@
            + decimal(t.month as nat) + " day="@ + decimal(t.day as nat)))
    } else if !cp56_resolvable(t) {
        Some((Iec104ErrorCode::InvalidValue, "invalid CP56 time: hour="@ + decimal(t.hours as nat) + " minute="@
            + decimal(t.minutes as nat) + " second="@ + decimal((t.milliseconds / 1000) as nat) + " ms="@
            + decimal((t.milliseconds % 1000) as nat)))
    } else {
        None
    }
}

fn check_cp56_time(t: Cp56Time) -> (r: Result<(), Iec104ValidationError>)
    ensures
        match r {
            Ok(_) => cp56_time_failure(t) is None,
            Err(e) => cp56_time_failure(t) == Some(err_view(e)),
        },
{
    let date_ok = crate::cp56::civil_date_exists(t.year as i32, t.month as u32, t.day as u32);
    if !date_ok {
        let y = text_with_number("invalid CP56 date: year=", t.year as u64, " month=");
        let m = u64_decimal(t.month as u64);
        let yd = join3(y.as_str(), m.as_str(), " day=");
        let d = u64_decimal(t.day as u64);
        return Err(invalid_value(join2(yd.as_str(), d.as_str())));
    }
    if !cp56_is_resolvable(t) {
        let h = text_with_number("invalid CP56 time: hour=", t.hours as u64, " minute=");
        let mi = u64_decimal(t.minutes as u64);
        let a = join3(h.as_str(), mi.as_str(), " second=");
        let sec = u64_decimal((t.milliseconds / 1000) as u64);
        let b = join3(a.as_str(), sec.as_str(), " ms=");
        let ms = u64_decimal((t.milliseconds % 1000) as u64);
        return Err(invalid_value(join2(b.as_str(), ms.as_str())));
    }
    Ok(())
}

/// Time tag of a type 107 test command: required, seven bytes, resolvable.
pub open spec fn test_timestamp_outcome(raw: Option<Seq<u8>>) -> Outcome<Option<Cp56Raw>> {
    match raw {
        None => Err((Iec104ErrorCode::InvalidValue, "type 107 requires CP56Time2a"@)),
        Some(v) => if v.len() != 7 {
            Err((Iec104ErrorCode::InvalidValue, "type 107 CP56Time2a length must be 7, got "@ + decimal(v.len())))
        } else {
            match cp56_time_failure(cp56_fields(v)) {
                Some(f) => Err(f),
                None => Ok(Some(raw_of(v))),
            }
        },
    }
}

/// The event a single received command object decodes to, or the first failing check.
pub open spec fn command_event_outcome(type_id: u8, cmd: DecodedCommand, action: CommandCotAction) -> Outcome<SlaveCommandEvent> {
    if ioa_failure(cmd.ioa) is Some {
        Err(ioa_failure(cmd.ioa)->0)
    } else {
        match control_timestamp_outcome(type_id, opt_view(cmd.timestamp)) {
            Err(f) => Err(f),
            Ok(timestamp) => match cmd.detail {
                DecodedCommandDetail::Single { value, select } => match control_qualifier_failure(0, cmd.qualifier) {
                    Some(f) => Err(f),
                    None => Ok(SlaveCommandEvent::SingleControl { type_id, ioa: cmd.ioa, value, select, action, qualifier: cmd.qualifier, timestamp }),
                },
                DecodedCommandDetail::Double { value, select } => match first_of(state_failure(1, value), control_qualifier_failure(1, cmd.qualifier)) {
                    Some(f) => Err(f),
                    None => Ok(SlaveCommandEvent::DoubleControl { type_id, ioa: cmd.ioa, value, select, action, qualifier: cmd.qualifier, timestamp }),
                },
                DecodedCommandDetail::Step { position, select } => match first_of(state_failure(2, position), control_qualifier_failure(2, cmd.qualifier)) {
                    Some(f) => Err(f),
                    None => Ok(SlaveCommandEvent::RegulatingStep { type_id, ioa: cmd.ioa, step: position, select, action, qualifier: cmd.qualifier, timestamp }),
                },
                DecodedCommandDetail::SetPointFloat { bits } => match setpoint_qualifier_outcome(cmd.qualifier) {
                    Err(f) => Err(f),
                    Ok(q) => if !crate::commands::f32_bits_finite(bits) {
                        Err((Iec104ErrorCode::InvalidValue, "setpoint float must be finite"@))
                    } else {
                        Ok(SlaveCommandEvent::SetPoint { type_id, ioa: cmd.ioa, value: SetPointCommandValue::Float { bits }, action, qualifier: q, timestamp })
                    },
                },
                DecodedCommandDetail::SetPointNormalized { value } => match setpoint_qualifier_outcome(cmd.qualifier) {
                    Err(f) => Err(f),
                    Ok(q) => Ok(SlaveCommandEvent::SetPoint { type_id, ioa: cmd.ioa, value: SetPointCommandValue::Normalized { value }, action, qualifier: q, timestamp }),
                },
                DecodedCommandDetail::SetPointScaled { value } => match setpoint_qualifier_outcome(cmd.qualifier) {
                    Err(f) => Err(f),
                    Ok(q) => Ok(SlaveCommandEvent::SetPoint { type_id, ioa: cmd.ioa, value: SetPointCommandValue::Scaled { value }, action, qualifier: q, timestamp }),
                },
                DecodedCommandDetail::ClockSynchronization { time } => match cp56_time_failure(time) {
                    Some(f) => Err(f),
                    None => Ok(SlaveCommandEvent::ClockSynchronization { ioa: cmd.ioa, time }),
                },
                DecodedCommandDetail::ResetProcess => match reset_qualifier_outcome(cmd.qualifier) {
                    Err(f) => Err(f),
                    Ok(q) => Ok(SlaveCommandEvent::ResetProcess { ioa: cmd.ioa, qualifier: q }),
                },
                DecodedCommandDetail::TestPattern { pattern } => if pattern != DLT_TEST_FBP {
                    Err((Iec104ErrorCode::InvalidValue, "test command pattern must be 0x55AA"@))
                } else if type_id == 107 {
                    match test_timestamp_outcome(opt_view(cmd.timestamp)) {
                        Err(f) => Err(f),
                        Ok(t) => Ok(SlaveCommandEvent::TestCommand { type_id, ioa: cmd.ioa, pattern, timestamp: t }),
                    }
                } else {
                    Ok(SlaveCommandEvent::TestCommand { type_id, ioa: cmd.ioa, pattern, timestamp: None })
                },
                DecodedCommandDetail::Raw { .. } => Err((Iec104ErrorCode::UnsupportedCommand, "unsupported command type_id="@ + decimal(type_id as nat))),
                DecodedCommandDetail::BitString { value } => Ok(SlaveCommandEvent::BitStringCommand { type_id, ioa: cmd.ioa, value, timestamp }),
                DecodedCommandDetail::Read => Ok(SlaveCommandEvent::ReadCommand { ioa: cmd.ioa }),
            },
        }
    }
}

pub open spec fn first_of(a: Failure, b: Failure) -> Failure {
    if a is Some { a } else { b }
}

/// Decoding of all command objects: every event in order, or the failure of the first object that fails.
pub open spec fn commands_outcome(type_id: u8, items: Seq<DecodedCommand>, action: CommandCotAction) -> Outcome<Seq<SlaveCommandEvent>>
    decreases items.len(),
{
    if items.len() == 0 {
        Ok(seq![])
    } else {
        match commands_outcome(type_id, items.drop_last(), action) {
            Err(f) => Err(f),
            Ok(events) => match command_event_outcome(type_id, items.last(), action) {
                Err(f) => Err(f),
                Ok(ev) => Ok(events.push(ev)),
            },
        }
    }
}

fn decode_command(type_id: u8, cmd: &DecodedCommand, action: CommandCotAction) -> (r: Result<SlaveCommandEvent, Iec104ValidationError>)
    ensures
        match r {
            Ok(ev) => command_event_outcome(type_id, *cmd, action) == Outcome::<SlaveCommandEvent>::Ok(ev),
            Err(e) => command_event_outcome(type_id, *cmd, action) == Outcome::<SlaveCommandEvent>::Err(err_view(e)),
        },
{
    validate_ioa(cmd.ioa)?;
    let timestamp = decode_control_timestamp(type_id, &cmd.timestamp)?;
    match &cmd.detail {
        DecodedCommandDetail::Single { value, select } => {
            validate_control_qualifier(0, cmd.qualifier)?;
            Ok(SlaveCommandEvent::SingleControl { type_id, ioa: cmd.ioa, value: *value, select: *select, action, qualifier: cmd.qualifier, timestamp })
        },
        DecodedCommandDetail::Double { value, select } => {
            validate_double_value(*value)?;
            validate_control_qualifier(1, cmd.qualifier)?;
            Ok(SlaveCommandEvent::DoubleControl { type_id, ioa: cmd.ioa, value: *value, select: *select, action, qualifier: cmd.qualifier, timestamp })
        },
        DecodedCommandDetail::Step { position, select } => {
            validate_step_value(*position)?;
            validate_control_qualifier(2, cmd.qualifier)?;
            Ok(SlaveCommandEvent::RegulatingStep { type_id, ioa: cmd.ioa, step: *position, select: *select, action, qualifier: cmd.qualifier, timestamp })
        },
        DecodedCommandDetail::SetPointFloat { bits } => {
            let q = validate_setpoint_qualifier(cmd.qualifier)?;
            if (*bits / 8388608) % 256 == 255 {
                return Err(invalid_value(String::from_str("setpoint float must be finite")));
            }
            Ok(SlaveCommandEvent::SetPoint { type_id, ioa: cmd.ioa, value: SetPointCommandValue::Float { bits: *bits }, action, qualifier: q, timestamp })
        },
        DecodedCommandDetail::SetPointNormalized { value } => {
            let q = validate_setpoint_qualifier(cmd.qualifier)?;
            Ok(SlaveCommandEvent::SetPoint { type_id, ioa: cmd.ioa, value: SetPointCommandValue::Normalized { value: *value }, action, qualifier: q, timestamp })
        },
        DecodedCommandDetail::SetPointScaled { value } => {
            let q = validate_setpoint_qualifier(cmd.qualifier)?;
            Ok(SlaveCommandEvent::SetPoint { type_id, ioa: cmd.ioa, value: SetPointCommandValue::Scaled { value: *value }, action, qualifier: q, timestamp })
        },
        DecodedCommandDetail::ClockSynchronization { time } => {
            check_cp56_time(*time)?;
            Ok(SlaveCommandEvent::ClockSynchronization { ioa: cmd.ioa, time: *time })
        },
        DecodedCommandDetail::ResetProcess => {
            let q = validate_reset_process_qualifier(cmd.qualifier)?;
            Ok(SlaveCommandEvent::ResetProcess { ioa: cmd.ioa, qualifier: q })
        },
        DecodedCommandDetail::TestPattern { pattern } => {
            if *pattern != DLT_TEST_FBP {
                return Err(invalid_value(String::from_str("test command pattern must be 0x55AA")));
            }
            let ts = if type_id == 107 {
                match &cmd.timestamp {
                    None => {
                        return Err(invalid_value(String::from_str("type 107 requires CP56Time2a")));
                    },
                    Some(v) => {
                        if v.len() != 7 {
                            let got = u64_decimal(v.len() as u64);
                            return Err(invalid_value(join2("type 107 CP56Time2a length must be 7, got ", got.as_str())));
                        }
                        let bytes: [u8; 7] = [v[0], v[1], v[2], v[3], v[4], v[5], v[6]];
                        assert(bytes@ =~= v@);
                        let parsed = parse_cp56_time2a(&bytes);
                        check_cp56_time(parsed)?;
                        Some(to_raw(v))
                    },
                }
            } else {
                None
            };
            Ok(SlaveCommandEvent::TestCommand { type_id, ioa: cmd.ioa, pattern: *pattern, timestamp: ts })
        },
        DecodedCommandDetail::Raw { .. } => {
            Err(Iec104ValidationError {
                code: Iec104ErrorCode::UnsupportedCommand,
                message: text_then_number("unsupported command type_id=", type_id as u64),
            })
        },
        DecodedCommandDetail::BitString { value } => {
            Ok(SlaveCommandEvent::BitStringCommand { type_id, ioa: cmd.ioa, value: *value, timestamp })
        },
        DecodedCommandDetail::Read => Ok(SlaveCommandEvent::ReadCommand { ioa: cmd.ioa }),
    }
}

fn validate_setpoint_qualifier(q: CommandQualifier) -> (r: Result<u8, Iec104ValidationError>)
    ensures
        match r {
            Ok(v) => setpoint_qualifier_outcome(q) == Outcome::<u8>::Ok(v),
            Err(e) => setpoint_qualifier_outcome(q) == Outcome::<u8>::Err(err_view(e)),
        },
{
    match q {
        CommandQualifier::Qos { raw } => Ok(raw),
        _ => {
            let bits = u8_binary(q.as_u8());
            Err(invalid_qualifier(join2("QOS qualifier type mismatch, got ", bits.as_str())))
        },
    }
}

fn validate_reset_process_qualifier(q: CommandQualifier) -> (r: Result<u8, Iec104ValidationError>)
    ensures
        match r {
            Ok(v) => reset_qualifier_outcome(q) == Outcome::<u8>::Ok(v),
            Err(e) => reset_qualifier_outcome(q) == Outcome::<u8>::Err(err_view(e)),
        },
{
    match q {
        CommandQualifier::Qrp { raw } => {
            if raw == 1 || raw == 2 {
                Ok(raw)
            } else {
                Err(invalid_qualifier(text_with_number("QRP ", raw as u64, " is invalid, expected 1 or 2")))
            }
        },
        _ => {
            let bits = u8_binary(q.as_u8());
            Err(invalid_qualifier(join2("QRP qualifier type mismatch, got ", bits.as_str())))
        },
    }
}

fn decode_commands(type_id: u8, items: &Vec<DecodedCommand>, action: CommandCotAction) -> (r: Result<Vec<SlaveCommandEvent>, Iec104ValidationError>)
    ensures
        match r {
            Ok(evs) => commands_outcome(type_id, items@, action) == Outcome::<Seq<SlaveCommandEvent>>::Ok(evs@),
            Err(e) => commands_outcome(type_id, items@, action) == Outcome::<Seq<SlaveCommandEvent>>::Err(err_view(e)),
        },
{
    let mut events: Vec<SlaveCommandEvent> = Vec::new();
    let mut i: usize = 0;
    while i < items.len()
        invariant
            i <= items@.len(),
            commands_outcome(type_id, items@.subrange(0, i as int), action) == Outcome::<Seq<SlaveCommandEvent>>::Ok(events@),
        decreases items@.len() - i,
    {
        let ghost prefix = items@.subrange(0, i as int + 1);
        assert(prefix.drop_last() =~= items@.subrange(0, i as int));
        assert(prefix.last() == items@[i as int]);
        let ev = decode_command(type_id, &items[i], action);
        match ev {
            Ok(e) => {
                events.push(e);
            },
            Err(e) => {
                proof { lemma_outcome_err_extends(type_id, items@, action, i as int + 1); }
                return Err(e);
            },
        }
        i = i + 1;
    }
    assert(items@.subrange(0, items@.len() as int) =~= items@);
    Ok(events)
}

/// A failure in a prefix is the failure of the whole sequence.
proof fn lemma_outcome_err_extends(type_id: u8, items: Seq<DecodedCommand>, action: CommandCotAction, n: int)
    requires
        0 <= n <= items.len(),
        commands_outcome(type_id, items.subrange(0, n), action) is Err,
    ensures
        commands_outcome(type_id, items, action) == commands_outcome(type_id, items.subrange(0, n), action),
    decreases items.len() - n,
{
    if n == items.len() {
        assert(items.subrange(0, n) =~= items);
    } else {
        let next = items.subrange(0, n + 1);
        assert(next.drop_last() =~= items.subrange(0, n));
        lemma_outcome_err_extends(type_id, items, action, n + 1);
    }
}

/// QOI check of a received general interrogation (20..=36 accepted).
pub open spec fn interrogation_outcome(type_id: u8, item: DecodedInterrogation) -> Outcome<SlaveCommandEvent> {
    if ioa_failure(item.ioa) is Some {
        Err(ioa_failure(item.ioa)->0)
    } else if type_id == 100 {
        if 20 <= item.qualifier <= 36 {
            Ok(SlaveCommandEvent::GeneralInterrogation { ioa: item.ioa, qualifier: item.qualifier })
        } else {
            Err((Iec104ErrorCode::InvalidQualifier, "QOI "@ + decimal(item.qualifier as nat) + " is invalid, expected 20..=36"@))
        }
    } else if type_id == 101 {
        if 1 <= item.qualifier % 64 <= 5 {
            Ok(SlaveCommandEvent::CounterInterrogation { ioa: item.ioa, qualifier: item.qualifier })
        } else {
            Err((Iec104ErrorCode::InvalidQualifier, "QCC request group "@ + decimal((item.qualifier % 64) as nat) + " is invalid, expected 1..=5"@))
        }
    } else {
        Err((Iec104ErrorCode::UnsupportedCommand, "unsupported interrogation type_id="@ + decimal(type_id as nat)))
    }
}

pub open spec fn interrogations_outcome(type_id: u8, items: Seq<DecodedInterrogation>) -> Outcome<Seq<SlaveCommandEvent>>
    decreases items.len(),
{
    if items.len() == 0 {
        Ok(seq![])
    } else {
        match interrogations_outcome(type_id, items.drop_last()) {
            Err(f) => Err(f),
            Ok(events) => match interrogation_outcome(type_id, items.last()) {
                Err(f) => Err(f),
                Ok(ev) => Ok(events.push(ev)),
            },
        }
    }
}

fn decode_interrogation(type_id: u8, item: DecodedInterrogation) -> (r: Result<SlaveCommandEvent, Iec104ValidationError>)
    ensures
        match r {
            Ok(ev) => interrogation_outcome(type_id, item) == Outcome::<SlaveCommandEvent>::Ok(ev),
            Err(e) => interrogation_outcome(type_id, item) == Outcome::<SlaveCommandEvent>::Err(err_view(e)),
        },
{
    validate_ioa(item.ioa)?;
    if type_id == 100 {
        if 20 <= item.qualifier && item.qualifier <= 36 {
            Ok(SlaveCommandEvent::GeneralInterrogation { ioa: item.ioa, qualifier: item.qualifier })
        } else {
            Err(invalid_qualifier(text_with_number("QOI ", item.qualifier as u64, " is invalid, expected 20..=36")))
        }
    } else if type_id == 101 {
        let request = item.qualifier % 64;
        if 1 <= request && request <= 5 {
            Ok(SlaveCommandEvent::CounterInterrogation { ioa: item.ioa, qualifier: item.qualifier })
        } else {
            Err(invalid_qualifier(text_with_number("QCC request group ", request as u64, " is invalid, expected 1..=5")))
        }
    } else {
        Err(Iec104ValidationError {
            code: Iec104ErrorCode::UnsupportedCommand,
            message: text_then_number("unsupported interrogation type_id=", type_id as u64),
        })
    }
}

fn decode_interrogations(type_id: u8, items: &Vec<DecodedInterrogation>) -> (r: Result<Vec<SlaveCommandEvent>, Iec104ValidationError>)
    ensures
        match r {
            Ok(evs) => interrogations_outcome(type_id, items@) == Outcome::<Seq<SlaveCommandEvent>>::Ok(evs@),
            Err(e) => interrogations_outcome(type_id, items@) == Outcome::<Seq<SlaveCommandEvent>>::Err(err_view(e)),
        },
{
    let mut events: Vec<SlaveCommandEvent> = Vec::new();
    let mut i: usize = 0;
    while i < items.len()
        invariant
            i <= items@.len(),
            interrogations_outcome(type_id, items@.subrange(0, i as int)) == Outcome::<Seq<SlaveCommandEvent>>::Ok(events@),
        decreases items@.len() - i,
    {
        let ghost prefix = items@.subrange(0, i as int + 1);
        assert(prefix.drop_last() =~= items@.subrange(0, i as int));
        match decode_interrogation(type_id, items[i]) {
            Ok(e) => {
                events.push(e);
            },
            Err(e) => {
                proof { lemma_interrogations_err_extends(type_id, items@, i as int + 1); }
                return Err(e);
            },
        }
        i = i + 1;
    }
    assert(items@.subrange(0, items@.len() as int) =~= items@);
    Ok(events)
}

proof fn lemma_interrogations_err_extends(type_id: u8, items: Seq<DecodedInterrogation>, n: int)
    requires
        0 <= n <= items.len(),
        interrogations_outcome(type_id, items.subrange(0, n)) is Err,
    ensures
        interrogations_outcome(type_id, items) == interrogations_outcome(type_id, items.subrange(0, n)),
    decreases items.len() - n,
{
    if n == items.len() {
        assert(items.subrange(0, n) =~= items);
    } else {
        let next = items.subrange(0, n + 1);
        assert(next.drop_last() =~= items.subrange(0, n));
        lemma_interrogations_err_extends(type_id, items, n + 1);
    }
}

/// What a slave makes of a received ASDU: the commands it carries, none for a
/// negative confirmation, or the first failure.
pub open spec fn slave_command_outcome(asdu: DecodedAsdu) -> Outcome<Seq<SlaveCommandEvent>> {
    match cause_failure(asdu.cause) {
        Some(f) => Err(f),
        None => {
            let parts = spec_cause_parts(asdu.cause);
            if parts.negative {
                Ok(seq![])
            } else {
                match asdu.body {
                    DecodedAsduBody::Interrogations { items } => interrogations_outcome(asdu.type_id, items@),
                    DecodedAsduBody::Commands { items } => commands_outcome(asdu.type_id, items@, spec_action(parts.cot)),
                    _ => Err((Iec104ErrorCode::UnsupportedCommand, "unsupported command type_id="@ + decimal(asdu.type_id as nat))),
                }
            }
        },
    }
}

/// Decodes the command intent of an ASDU a slave received.
pub fn decode_slave_command(decoded_asdu: &DecodedAsdu) -> (r: Result<Vec<SlaveCommandEvent>, Iec104ValidationError>)
    ensures
        match r {
            Ok(evs) => slave_command_outcome(*decoded_asdu) == Outcome::<Seq<SlaveCommandEvent>>::Ok(evs@),
            Err(e) => slave_command_outcome(*decoded_asdu) == Outcome::<Seq<SlaveCommandEvent>>::Err(err_view(e)),
        },
{
    let cause_parts = parse_cause(decoded_asdu.cause)?;
    let action = command_action_from_cot(cause_parts.cot);
    if cause_parts.negative {
        return Ok(Vec::new());
    }
    match &decoded_asdu.body {
        DecodedAsduBody::Interrogations { items } => decode_interrogations(decoded_asdu.type_id, items),
        DecodedAsduBody::Commands { items } => decode_commands(decoded_asdu.type_id, items, action),
        _ => Err(Iec104ValidationError {
            code: Iec104ErrorCode::UnsupportedCommand,
            message: text_then_number("unsupported command type_id=", decoded_asdu.type_id as u64),
        }),
    }
}

proof fn lemma_commands_outcome_items(type_id: u8, items: Seq<DecodedCommand>, action: CommandCotAction, evs: Seq<SlaveCommandEvent>)
    requires
        commands_outcome(type_id, items, action) == Outcome::<Seq<SlaveCommandEvent>>::Ok(evs),
    ensures
        evs.len() == items.len(),
        forall|i: int| 0 <= i < items.len() ==>
            command_event_outcome(type_id, #[trigger] items[i], action) == Outcome::<SlaveCommandEvent>::Ok(evs[i]),
    decreases items.len(),
{
    if items.len() > 0 {
        let rest = items.drop_last();
        let prev = evs.drop_last();
        match commands_outcome(type_id, rest, action) {
            Outcome::Ok(e0) => {
                assert(evs == e0.push(evs.last()));
                lemma_commands_outcome_items(type_id, rest, action, e0);
                assert(e0 == prev);
                assert forall|i: int| 0 <= i < items.len() implies
                    command_event_outcome(type_id, #[trigger] items[i], action) == Outcome::<SlaveCommandEvent>::Ok(evs[i]) by {
                    if i < rest.len() {
                        assert(items[i] == rest[i]);
                    }
                }
            },
            Outcome::Err(_) => {},
        }
    }
}

/// A slave that accepts a command ASDU reports one event per object, in order,
/// and a single, double or step command's event carries the object's address,
/// commanded state and select flag unchanged, a set point or bit string
/// command's event its value, all under the ASDU's type.
pub proof fn control_commands_keep_their_state(asdu: DecodedAsdu, evs: Seq<SlaveCommandEvent>, i: int)
    requires
        slave_command_outcome(asdu) == Outcome::<Seq<SlaveCommandEvent>>::Ok(evs),
        !spec_cause_parts(asdu.cause).negative,
        asdu.body matches DecodedAsduBody::Commands { items } && 0 <= i < items@.len(),
    ensures
        ({
            let cmd = asdu.body->Commands_items@[i];
            &&& evs.len() == asdu.body->Commands_items@.len()
            &&& cmd.detail matches DecodedCommandDetail::Double { value, select } ==>
                (evs[i] matches SlaveCommandEvent::DoubleControl { type_id: t, ioa: a, value: v, select: s, .. }
                    && t == asdu.type_id && a == cmd.ioa && v == value && s == select)
            &&& cmd.detail matches DecodedCommandDetail::Single { value, select } ==>
                (evs[i] matches SlaveCommandEvent::SingleControl { type_id: t, ioa: a, value: v, select: s, .. }
                    && t == asdu.type_id && a == cmd.ioa && v == value && s == select)
            &&& cmd.detail matches DecodedCommandDetail::Step { position, select } ==>
                (evs[i] matches SlaveCommandEvent::RegulatingStep { type_id: t, ioa: a, step: v, select: s, .. }
                    && t == asdu.type_id && a == cmd.ioa && v == position && s == select)
            &&& cmd.detail matches DecodedCommandDetail::SetPointScaled { value } ==>
                (evs[i] matches SlaveCommandEvent::SetPoint { type_id: t, ioa: a, value: v, .. }
                    && t == asdu.type_id && a == cmd.ioa && v == SetPointCommandValue::Scaled { value })
            &&& cmd.detail matches DecodedCommandDetail::SetPointNormalized { value } ==>
                (evs[i] matches SlaveCommandEvent::SetPoint { type_id: t, ioa: a, value: v, .. }
                    && t == asdu.type_id && a == cmd.ioa && v == SetPointCommandValue::Normalized { value })
            &&& cmd.detail matches DecodedCommandDetail::SetPointFloat { bits } ==>
                (evs[i] matches SlaveCommandEvent::SetPoint { type_id: t, ioa: a, value: v, .. }
                    && t == asdu.type_id && a == cmd.ioa && v == SetPointCommandValue::Float { bits })
            &&& cmd.detail matches DecodedCommandDetail::BitString { value } ==>
                (evs[i] matches SlaveCommandEvent::BitStringCommand { type_id: t, ioa: a, value: v, .. }
                    && t == asdu.type_id && a == cmd.ioa && v == value)
        }),
{
    let items = asdu.body->Commands_items@;
    let action = spec_action(spec_cause_parts(asdu.cause).cot);
    assert(cause_failure(asdu.cause) is None);
    assert(commands_outcome(asdu.type_id, items, action) == Outcome::<Seq<SlaveCommandEvent>>::Ok(evs));
    lemma_commands_outcome_items(asdu.type_id, items, action, evs);
    assert(command_event_outcome(asdu.type_id, items[i], action) == Outcome::<SlaveCommandEvent>::Ok(evs[i]));
    lemma_event_keeps_state(asdu.type_id, items[i], action, evs[i]);
}

proof fn lemma_event_keeps_state(type_id: u8, cmd: DecodedCommand, action: CommandCotAction, ev: SlaveCommandEvent)
    requires
        command_event_outcome(type_id, cmd, action) == Outcome::<SlaveCommandEvent>::Ok(ev),
    ensures
        cmd.detail matches DecodedCommandDetail::Double { value, select } ==>
            (ev matches SlaveCommandEvent::DoubleControl { type_id: t, ioa: a, value: v, select: s, .. }
                && t == type_id && a == cmd.ioa && v == value && s == select),
        cmd.detail matches DecodedCommandDetail::Single { value, select } ==>
            (ev matches SlaveCommandEvent::SingleControl { type_id: t, ioa: a, value: v, select: s, .. }
                && t == type_id && a == cmd.ioa && v == value && s == select),
        cmd.detail matches DecodedCommandDetail::Step { position, select } ==>
            (ev matches SlaveCommandEvent::RegulatingStep { type_id: t, ioa: a, step: v, select: s, .. }
                && t == type_id && a == cmd.ioa && v == position && s == select),
        cmd.detail matches DecodedCommandDetail::SetPointScaled { value } ==>
            (ev matches SlaveCommandEvent::SetPoint { type_id: t, ioa: a, value: v, .. }
                && t == type_id && a == cmd.ioa && v == SetPointCommandValue::Scaled { value }),
        cmd.detail matches DecodedCommandDetail::SetPointNormalized { value } ==>
            (ev matches SlaveCommandEvent::SetPoint { type_id: t, ioa: a, value: v, .. }
                && t == type_id && a == cmd.ioa && v == SetPointCommandValue::Normalized { value }),
        cmd.detail matches DecodedCommandDetail::SetPointFloat { bits } ==>
            (ev matches SlaveCommandEvent::SetPoint { type_id: t, ioa: a, value: v, .. }
                && t == type_id && a == cmd.ioa && v == SetPointCommandValue::Float { bits }),
        cmd.detail matches DecodedCommandDetail::BitString { value } ==>
            (ev matches SlaveCommandEvent::BitStringCommand { type_id: t, ioa: a, value: v, .. }
                && t == type_id && a == cmd.ioa && v == value),
{
}

} // verus!
