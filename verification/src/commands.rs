//! Master commands: strongly typed qualifiers, the unified command model,
//! validation of its parameters and the ASDU that carries it.

use vstd::prelude::*;

use crate::cp56::{Cp56Time, cp56_bytes, cp56_encodable, push_cp56};
use crate::errors::{Iec104ErrorCode, Iec104ValidationError, check_matches, err_view, first_failure};
use crate::text::{decimal, text_with_number};
use crate::wire::{asdu_bytes, command_octet, encode_wire_asdu, ioa3, le16, le32, push_le16, push_le32, ioa_field, command_qualifier_octet};

verus! {

/// Largest information object address (24 bits).
pub const IEC104_IOA_MAX: u32 = 0x00FF_FFFF;
/// Cause of transmission: activation.
pub const COT_ACTIVATION: u8 = 6;
/// Cause of transmission: deactivation.
pub const COT_DEACTIVATION: u8 = 8;
/// The fixed test bit pattern a test command must carry.
pub const DLT_TEST_FBP: u16 = 0x55AA;

/// Select, execute or cancel step of a select-before-operate control.
#[derive(Clone, Copy, Debug, PartialEq, Eq, Structural)]
pub enum SelectExecute {
    Select,
    Execute,
    Cancel,
}

impl SelectExecute {
    pub open spec fn spec_is_select(self) -> bool {
        self is Select || self is Cancel
    }

    pub open spec fn spec_cause(self) -> u8 {
        if self is Cancel { COT_DEACTIVATION } else { COT_ACTIVATION }
    }

    /// The S/E bit: set for select and for cancel.
    pub fn is_select(self) -> (r: bool)
        ensures
            r == self.spec_is_select(),
    {
        match self {
            SelectExecute::Select | SelectExecute::Cancel => true,
            SelectExecute::Execute => false,
        }
    }

    /// Cause of transmission: deactivation for cancel, activation otherwise.
    pub fn cause(self) -> (r: u8)
        ensures
            r == self.spec_cause(),
    {
        match self {
            SelectExecute::Cancel => COT_DEACTIVATION,
            _ => COT_ACTIVATION,
        }
    }
}

/// Qualifier of interrogation (QOI): station or one of the groups.
#[derive(Clone, Copy, Debug, PartialEq, Eq, Structural)]
pub enum InterrogationQualifier {
    Station,
    Group { group: u8 },
}

impl InterrogationQualifier {
    pub open spec fn spec_as_u8(self) -> u8 {
        match self {
            InterrogationQualifier::Station => 20,
            InterrogationQualifier::Group { group } => if 20 + group > 255 { 255 } else { (20 + group) as u8 },
        }
    }

    /// Wire value: 20 for the station, 20 + group (saturating) for a group.
    pub fn as_u8(&self) -> (r: u8)
        ensures
            r == self.spec_as_u8(),
    {
        match self {
            InterrogationQualifier::Station => 20,
            InterrogationQualifier::Group { group } => 20u8.saturating_add(*group),
        }
    }
}

/// Freeze part (FRZ) of the counter interrogation qualifier.
#[derive(Clone, Copy, Debug, PartialEq, Eq, Structural)]
pub enum CounterFreeze {
    Read,
    Freeze,
    FreezeAndReset,
    Reset,
}

impl CounterFreeze {
    pub open spec fn spec_as_u8(self) -> u8 {
        match self {
            CounterFreeze::Read => 0,
            CounterFreeze::Freeze => 1,
            CounterFreeze::FreezeAndReset => 2,
            CounterFreeze::Reset => 3,
        }
    }

    pub fn as_u8(self) -> (r: u8)
        ensures
            r == self.spec_as_u8(),
    {
        match self {
            CounterFreeze::Read => 0,
            CounterFreeze::Freeze => 1,
            CounterFreeze::FreezeAndReset => 2,
            CounterFreeze::Reset => 3,
        }
    }
}

/// Qualifier of counter interrogation (QCC): request group and freeze action.
#[derive(Clone, Copy, Debug, PartialEq, Eq, Structural)]
pub struct CounterInterrogationQualifier {
    pub request: u8,
    pub freeze: CounterFreeze,
}

impl CounterInterrogationQualifier {
    pub open spec fn spec_as_u8(self) -> u8 {
        (self.freeze.spec_as_u8() * 64 + self.request % 64) as u8
    }

    /// Wire value: FRZ in bit 6-7, RQT in bit 0-5.
    pub fn as_u8(self) -> (r: u8)
        ensures
            r == self.spec_as_u8(),
    {
        self.freeze.as_u8() * 64 + self.request % 64
    }
}

/// Qualifier of reset process (QRP).
#[derive(Clone, Copy, Debug, PartialEq, Eq, Structural)]
pub enum ResetProcessQualifier {
    GeneralReset,
    ClearEventBuffer,
}

impl ResetProcessQualifier {
    pub open spec fn spec_as_u8(self) -> u8 {
        match self {
            ResetProcessQualifier::GeneralReset => 1,
            ResetProcessQualifier::ClearEventBuffer => 2,
        }
    }

    pub fn as_u8(self) -> (r: u8)
        ensures
            r == self.spec_as_u8(),
    {
        match self {
            ResetProcessQualifier::GeneralReset => 1,
            ResetProcessQualifier::ClearEventBuffer => 2,
        }
    }
}

/// Qualifier of set-point command (QOS): QL and the S/E step.
#[derive(Clone, Copy, Debug, PartialEq, Eq, Structural)]
pub struct SetpointQos {
    pub ql: u8,
    pub se: SelectExecute,
}

impl SetpointQos {
    pub open spec fn spec_as_u8(self) -> u8 {
        ((if self.se.spec_is_select() { 128int } else { 0int }) + self.ql % 128) as u8
    }

    /// Wire value: S/E in bit 7, QL in bit 0-6.
    pub fn as_u8(self) -> (r: u8)
        ensures
            r == self.spec_as_u8(),
    {
        let se_bit: u8 = if self.se.is_select() { 0x80 } else { 0x00 };
        se_bit + self.ql % 128
    }
}

/// How strictly the QU field of a control command is checked.
#[derive(Clone, Copy, Debug, PartialEq, Eq, Structural)]
pub enum QualifierMode {
    /// QU 0..=3 only.
    Standard,
    /// Any five-bit QU, for testing peers.
    RawTest,
}

/// The unified master command model.
///
/// Set-point values travel in their wire form: a normalized value as its raw
/// 16-bit code (`None` when the requested value has none), a short float as
/// its IEEE 754 bits. Time tags travel as CP56Time2a fields.
#[derive(Clone, Copy, Debug)]
pub enum Iec104Command {
    GeneralInterrogation { qoi: InterrogationQualifier },
    CounterInterrogation { qcc: CounterInterrogationQualifier },
    ClockSynchronization { timestamp: Option<Cp56Time> },
    TestCommand { ioa: u32, pattern: u16 },
    ResetProcessCommand { ioa: u32, qrp: ResetProcessQualifier },
    SingleCommand { ioa: u32, value: bool, se: SelectExecute, qu: u8 },
    DoubleCommand { ioa: u32, value: u8, se: SelectExecute, qu: u8 },
    RegulatingStepCommand { ioa: u32, step: u8, se: SelectExecute, qu: u8 },
    SetPointNormalized { ioa: u32, value: Option<i16>, qos: SetpointQos },
    SetPointScaled { ioa: u32, value: i16, qos: SetpointQos },
    SetPointShortFloat { ioa: u32, value_bits: u32, qos: SetpointQos },
    BitStringCommand { ioa: u32, value: u32 },
    SingleCommandTimed { ioa: u32, value: bool, se: SelectExecute, qu: u8, timestamp: Cp56Time },
    DoubleCommandTimed { ioa: u32, value: u8, se: SelectExecute, qu: u8, timestamp: Cp56Time },
    RegulatingStepCommandTimed { ioa: u32, step: u8, se: SelectExecute, qu: u8, timestamp: Cp56Time },
    SetPointNormalizedTimed { ioa: u32, value: Option<i16>, qos: SetpointQos, timestamp: Cp56Time },
    SetPointScaledTimed { ioa: u32, value: i16, qos: SetpointQos, timestamp: Cp56Time },
    SetPointShortFloatTimed { ioa: u32, value_bits: u32, qos: SetpointQos, timestamp: Cp56Time },
    BitStringCommandTimed { ioa: u32, value: u32, timestamp: Cp56Time },
    ReadCommand { ioa: u32 },
}

/// An ASDU ready to be framed: type, cause of transmission, common address and data field.
#[derive(Clone, Debug)]
pub struct AsduInfo {
    pub type_id: u8,
    pub cause: u16,
    pub common_address: u16,
    pub data: Vec<u8>,
}

pub type Failure = Option<(Iec104ErrorCode, Seq<char>)>;

pub open spec fn common_address_failure(ca: u16) -> Failure {
    if ca == 0 { Some((Iec104ErrorCode::InvalidCommonAddress, "common address must be in 1..=65535"@)) } else { None }
}

pub open spec fn ioa_failure(ioa: u32) -> Failure {
    if ioa > IEC104_IOA_MAX {
        Some((Iec104ErrorCode::InvalidObjectAddress, "IOA "@ + decimal(ioa as nat) + " exceeds 24-bit range"@))
    } else {
        None
    }
}

pub open spec fn qoi_failure(qoi: InterrogationQualifier) -> Failure {
    match qoi {
        InterrogationQualifier::Station => None,
        InterrogationQualifier::Group { group } => if 1 <= group <= 16 { None } else {
            Some((Iec104ErrorCode::InvalidQualifier, "QOI group "@ + decimal(group as nat) + " is invalid, expected 1..=16"@))
        },
    }
}

pub open spec fn qcc_failure(qcc: CounterInterrogationQualifier) -> Failure {
    if 1 <= qcc.request <= 5 { None } else {
        Some((Iec104ErrorCode::InvalidQualifier, "QCC request group "@ + decimal(qcc.request as nat) + " is invalid, expected 1..=5"@))
    }
}

pub open spec fn pattern_failure(pattern: u16) -> Failure {
    if pattern == DLT_TEST_FBP { None } else {
        Some((Iec104ErrorCode::InvalidValue, "test command pattern must be 0x55AA"@))
    }
}

pub open spec fn double_value_failure(value: u8) -> Failure {
    if value == 1 || value == 2 { None } else {
        Some((Iec104ErrorCode::InvalidValue, "double command value "@ + decimal(value as nat) + " is invalid, expected 1(off) or 2(on)"@))
    }
}

pub open spec fn step_failure(step: u8) -> Failure {
    if step == 1 || step == 2 { None } else {
        Some((Iec104ErrorCode::InvalidValue, "regulating step "@ + decimal(step as nat) + " is invalid, expected 1(decrease) or 2(increase)"@))
    }
}

pub open spec fn qu_failure(qu: u8, mode: QualifierMode) -> Failure {
    if qu <= 3 || (mode is RawTest && qu <= 31) { None } else {
        Some((Iec104ErrorCode::InvalidQualifier, "QOC QU "@ + decimal(qu as nat)
            + if mode is RawTest { " is invalid, expected 0..=31"@ } else { " is invalid, expected 0..=3"@ }))
    }
}

pub open spec fn qos_failure(qos: SetpointQos) -> Failure {
    if qos.ql <= 0x7F { None } else {
        Some((Iec104ErrorCode::InvalidQualifier, "QOS QL "@ + decimal(qos.ql as nat) + " is invalid, expected 0..=127"@))
    }
}

pub open spec fn normalized_failure(value: Option<i16>) -> Failure {
    if value is Some { None } else {
        Some((Iec104ErrorCode::InvalidValue, "normalized setpoint must be finite and in [-1.0, 1.0)"@))
    }
}

/// An IEEE 754 single precision value is finite unless its exponent bits are all set.
pub open spec fn f32_bits_finite(bits: u32) -> bool {
    (bits / 8388608) % 256 != 255
}

pub open spec fn finite_failure(bits: u32) -> Failure {
    if f32_bits_finite(bits) { None } else {
        Some((Iec104ErrorCode::InvalidValue, "setpoint short float must be finite"@))
    }
}

/// The first failing check of a command, in the order the checks are made.
pub open spec fn command_failure(cmd: Iec104Command, mode: QualifierMode) -> Failure {
    match cmd {
        Iec104Command::GeneralInterrogation { qoi } => qoi_failure(qoi),
        Iec104Command::CounterInterrogation { qcc } => qcc_failure(qcc),
        Iec104Command::ClockSynchronization { .. } => None,
        Iec104Command::TestCommand { ioa, pattern } => first_failure(ioa_failure(ioa), pattern_failure(pattern)),
        Iec104Command::ResetProcessCommand { ioa, .. } => ioa_failure(ioa),
        Iec104Command::SingleCommand { ioa, qu, .. } => first_failure(ioa_failure(ioa), qu_failure(qu, mode)),
        Iec104Command::DoubleCommand { ioa, value, qu, .. } =>
            first_failure(ioa_failure(ioa), first_failure(double_value_failure(value), qu_failure(qu, mode))),
        Iec104Command::RegulatingStepCommand { ioa, step, qu, .. } =>
            first_failure(ioa_failure(ioa), first_failure(step_failure(step), qu_failure(qu, mode))),
        Iec104Command::SetPointNormalized { ioa, value, qos } =>
            first_failure(ioa_failure(ioa), first_failure(qos_failure(qos), normalized_failure(value))),
        Iec104Command::SetPointScaled { ioa, qos, .. } => first_failure(ioa_failure(ioa), qos_failure(qos)),
        Iec104Command::SetPointShortFloat { ioa, value_bits, qos } =>
            first_failure(ioa_failure(ioa), first_failure(finite_failure(value_bits), qos_failure(qos))),
        Iec104Command::BitStringCommand { ioa, .. } => ioa_failure(ioa),
        Iec104Command::SingleCommandTimed { ioa, qu, .. } => first_failure(ioa_failure(ioa), qu_failure(qu, mode)),
        Iec104Command::DoubleCommandTimed { ioa, value, qu, .. } =>
            first_failure(ioa_failure(ioa), first_failure(double_value_failure(value), qu_failure(qu, mode))),
        Iec104Command::RegulatingStepCommandTimed { ioa, step, qu, .. } =>
            first_failure(ioa_failure(ioa), first_failure(step_failure(step), qu_failure(qu, mode))),
        Iec104Command::SetPointNormalizedTimed { ioa, value, qos, .. } =>
            first_failure(ioa_failure(ioa), first_failure(qos_failure(qos), normalized_failure(value))),
        Iec104Command::SetPointScaledTimed { ioa, qos, .. } => first_failure(ioa_failure(ioa), qos_failure(qos)),
        Iec104Command::SetPointShortFloatTimed { ioa, value_bits, qos, .. } =>
            first_failure(ioa_failure(ioa), first_failure(finite_failure(value_bits), qos_failure(qos))),
        Iec104Command::BitStringCommandTimed { ioa, .. } => ioa_failure(ioa),
        Iec104Command::ReadCommand { ioa } => ioa_failure(ioa),
    }
}

/// The failure of building an ASDU for `cmd` at common address `ca`.
pub open spec fn build_failure(ca: u16, cmd: Iec104Command, mode: QualifierMode) -> Failure {
    first_failure(common_address_failure(ca), command_failure(cmd, mode))
}

/// The ASDU type identification of a command.
pub open spec fn command_type_id(cmd: Iec104Command) -> u8 {
    match cmd {
        Iec104Command::GeneralInterrogation { .. } => 100,
        Iec104Command::CounterInterrogation { .. } => 101,
        Iec104Command::ClockSynchronization { .. } => 103,
        Iec104Command::TestCommand { .. } => 104,
        Iec104Command::ResetProcessCommand { .. } => 105,
        Iec104Command::SingleCommand { .. } => 45,
        Iec104Command::DoubleCommand { .. } => 46,
        Iec104Command::RegulatingStepCommand { .. } => 47,
        Iec104Command::SetPointNormalized { .. } => 48,
        Iec104Command::SetPointScaled { .. } => 49,
        Iec104Command::SetPointShortFloat { .. } => 50,
        Iec104Command::BitStringCommand { .. } => 51,
        Iec104Command::SingleCommandTimed { .. } => 58,
        Iec104Command::DoubleCommandTimed { .. } => 59,
        Iec104Command::RegulatingStepCommandTimed { .. } => 60,
        Iec104Command::SetPointNormalizedTimed { .. } => 61,
        Iec104Command::SetPointScaledTimed { .. } => 62,
        Iec104Command::SetPointShortFloatTimed { .. } => 63,
        Iec104Command::BitStringCommandTimed { .. } => 64,
        Iec104Command::ReadCommand { .. } => 102,
    }
}

/// The cause of transmission of a command: that of its S/E step for controls and set-points, activation otherwise.
pub open spec fn spec_command_cause(cmd: Iec104Command) -> u16 {
    match cmd {
        Iec104Command::SingleCommand { se, .. } | Iec104Command::DoubleCommand { se, .. }
        | Iec104Command::RegulatingStepCommand { se, .. } | Iec104Command::SingleCommandTimed { se, .. }
        | Iec104Command::DoubleCommandTimed { se, .. } | Iec104Command::RegulatingStepCommandTimed { se, .. } =>
            se.spec_cause() as u16,
        Iec104Command::SetPointNormalized { qos, .. } | Iec104Command::SetPointScaled { qos, .. }
        | Iec104Command::SetPointShortFloat { qos, .. } | Iec104Command::SetPointNormalizedTimed { qos, .. }
        | Iec104Command::SetPointScaledTimed { qos, .. } | Iec104Command::SetPointShortFloatTimed { qos, .. } =>
            qos.se.spec_cause() as u16,
        _ => COT_ACTIVATION as u16,
    }
}

/// Every time tag the command would encode (the clock synchronization falls back to `now`) lies in 2000-2099.
pub open spec fn command_times_encodable(cmd: Iec104Command, now: Cp56Time) -> bool {
    match cmd {
        Iec104Command::ClockSynchronization { timestamp } => match timestamp {
            Some(t) => cp56_encodable(t),
            None => cp56_encodable(now),
        },
        Iec104Command::SingleCommandTimed { timestamp, .. } | Iec104Command::DoubleCommandTimed { timestamp, .. }
        | Iec104Command::RegulatingStepCommandTimed { timestamp, .. }
        | Iec104Command::SetPointNormalizedTimed { timestamp, .. }
        | Iec104Command::SetPointScaledTimed { timestamp, .. }
        | Iec104Command::SetPointShortFloatTimed { timestamp, .. }
        | Iec104Command::BitStringCommandTimed { timestamp, .. } => cp56_encodable(timestamp),
        _ => true,
    }
}

/// Whether every time tag the command would encode lies in 2000-2099.
pub fn command_times_in_range(cmd: &Iec104Command, now: Cp56Time) -> (r: bool)
    ensures
        r == command_times_encodable(*cmd, now),
{
    let t = match cmd {
        Iec104Command::ClockSynchronization { timestamp } => match timestamp {
            Some(t) => *t,
            None => now,
        },
        Iec104Command::SingleCommandTimed { timestamp, .. } | Iec104Command::DoubleCommandTimed { timestamp, .. }
        | Iec104Command::RegulatingStepCommandTimed { timestamp, .. }
        | Iec104Command::SetPointNormalizedTimed { timestamp, .. }
        | Iec104Command::SetPointScaledTimed { timestamp, .. }
        | Iec104Command::SetPointShortFloatTimed { timestamp, .. }
        | Iec104Command::BitStringCommandTimed { timestamp, .. } => *timestamp,
        _ => { return true; },
    };
    2000 <= t.year && t.year <= 2099
}

pub open spec fn bool_bit(b: bool) -> u8 {
    if b { 1 } else { 0 }
}

pub open spec fn setpoint_i16_field(ioa: u32, value: i16, qualifier: u8) -> Seq<u8> {
    ioa3(ioa) + le16(value as u16) + seq![qualifier]
}

/// The data field (information object) of a command that passed validation.
pub open spec fn command_payload(cmd: Iec104Command, now: Cp56Time) -> Seq<u8> {
    match cmd {
        Iec104Command::GeneralInterrogation { qoi } => ioa3(0) + seq![qoi.spec_as_u8()],
        Iec104Command::CounterInterrogation { qcc } => ioa3(0) + seq![qcc.spec_as_u8()],
        Iec104Command::ClockSynchronization { timestamp } => ioa3(0) + cp56_bytes(match timestamp { Some(t) => t, None => now }),
        Iec104Command::TestCommand { ioa, pattern } => ioa3(ioa) + le16(pattern),
        Iec104Command::ResetProcessCommand { ioa, qrp } => ioa3(ioa) + seq![qrp.spec_as_u8()],
        Iec104Command::SingleCommand { ioa, value, se, qu } => ioa3(ioa) + seq![command_octet(bool_bit(value), qu, se.spec_is_select())],
        Iec104Command::DoubleCommand { ioa, value, se, qu } => ioa3(ioa) + seq![command_octet(value, qu, se.spec_is_select())],
        Iec104Command::RegulatingStepCommand { ioa, step, se, qu } => ioa3(ioa) + seq![command_octet(step, qu, se.spec_is_select())],
        Iec104Command::SetPointNormalized { ioa, value, qos } => setpoint_i16_field(ioa, value->0, qos.spec_as_u8()),
        Iec104Command::SetPointScaled { ioa, value, qos } => setpoint_i16_field(ioa, value, qos.spec_as_u8()),
        Iec104Command::SetPointShortFloat { ioa, value_bits, qos } => ioa3(ioa) + le32(value_bits) + seq![qos.spec_as_u8()],
        Iec104Command::BitStringCommand { ioa, value } => ioa3(ioa) + le32(value),
        Iec104Command::SingleCommandTimed { ioa, value, se, qu, timestamp } =>
            ioa3(ioa) + seq![command_octet(bool_bit(value), qu, se.spec_is_select())] + cp56_bytes(timestamp),
        Iec104Command::DoubleCommandTimed { ioa, value, se, qu, timestamp } =>
            ioa3(ioa) + seq![command_octet(value, qu, se.spec_is_select())] + cp56_bytes(timestamp),
        Iec104Command::RegulatingStepCommandTimed { ioa, step, se, qu, timestamp } =>
            ioa3(ioa) + seq![command_octet(step, qu, se.spec_is_select())] + cp56_bytes(timestamp),
        Iec104Command::SetPointNormalizedTimed { ioa, value, qos, timestamp } =>
            setpoint_i16_field(ioa, value->0, qos.spec_as_u8()) + cp56_bytes(timestamp),
        Iec104Command::SetPointScaledTimed { ioa, value, qos, timestamp } =>
            setpoint_i16_field(ioa, value, qos.spec_as_u8()) + cp56_bytes(timestamp),
        Iec104Command::SetPointShortFloatTimed { ioa, value_bits, qos, timestamp } =>
            ioa3(ioa) + le32(value_bits) + seq![qos.spec_as_u8()] + cp56_bytes(timestamp),
        Iec104Command::BitStringCommandTimed { ioa, value, timestamp } => ioa3(ioa) + le32(value) + cp56_bytes(timestamp),
        Iec104Command::ReadCommand { ioa } => ioa3(ioa),
    }
}

fn failure_of(code: Iec104ErrorCode, message: String) -> (r: Result<(), Iec104ValidationError>)
    ensures
        r matches Err(e) && e.code == code && e.message@ == message@,
{
    Err(Iec104ValidationError { code, message })
}

pub fn validate_common_address(common_address: u16) -> (r: Result<(), Iec104ValidationError>)
    ensures
        check_matches(r, common_address_failure(common_address)),
{
    if common_address == 0 {
        return failure_of(Iec104ErrorCode::InvalidCommonAddress, String::from_str("common address must be in 1..=65535"));
    }
    Ok(())
}

pub fn validate_ioa(ioa: u32) -> (r: Result<(), Iec104ValidationError>)
    ensures
        check_matches(r, ioa_failure(ioa)),
{
    if ioa > IEC104_IOA_MAX {
        return failure_of(Iec104ErrorCode::InvalidObjectAddress, text_with_number("IOA ", ioa as u64, " exceeds 24-bit range"));
    }
    Ok(())
}

pub fn validate_general_interrogation_qualifier(qoi: &InterrogationQualifier) -> (r: Result<(), Iec104ValidationError>)
    ensures
        check_matches(r, qoi_failure(*qoi)),
{
    match qoi {
        InterrogationQualifier::Station => Ok(()),
        InterrogationQualifier::Group { group } => {
            if 1 <= *group && *group <= 16 {
                Ok(())
            } else {
                failure_of(Iec104ErrorCode::InvalidQualifier, text_with_number("QOI group ", *group as u64, " is invalid, expected 1..=16"))
            }
        },
    }
}

pub fn validate_counter_interrogation_qualifier(qcc: CounterInterrogationQualifier) -> (r: Result<(), Iec104ValidationError>)
    ensures
        check_matches(r, qcc_failure(qcc)),
{
    if 1 <= qcc.request && qcc.request <= 5 {
        Ok(())
    } else {
        failure_of(Iec104ErrorCode::InvalidQualifier, text_with_number("QCC request group ", qcc.request as u64, " is invalid, expected 1..=5"))
    }
}

pub fn validate_test_pattern(pattern: u16) -> (r: Result<(), Iec104ValidationError>)
    ensures
        check_matches(r, pattern_failure(pattern)),
{
    if pattern != DLT_TEST_FBP {
        return failure_of(Iec104ErrorCode::InvalidValue, String::from_str("test command pattern must be 0x55AA"));
    }
    Ok(())
}

pub fn validate_double_command_value(value: u8) -> (r: Result<(), Iec104ValidationError>)
    ensures
        check_matches(r, double_value_failure(value)),
{
    if value == 1 || value == 2 {
        Ok(())
    } else {
        failure_of(Iec104ErrorCode::InvalidValue,
            text_with_number("double command value ", value as u64, " is invalid, expected 1(off) or 2(on)"))
    }
}

pub fn validate_regulating_step(step: u8) -> (r: Result<(), Iec104ValidationError>)
    ensures
        check_matches(r, step_failure(step)),
{
    if step == 1 || step == 2 {
        Ok(())
    } else {
        failure_of(Iec104ErrorCode::InvalidValue,
            text_with_number("regulating step ", step as u64, " is invalid, expected 1(decrease) or 2(increase)"))
    }
}

pub fn validate_command_qualifier(qu: u8, mode: QualifierMode) -> (r: Result<(), Iec104ValidationError>)
    ensures
        check_matches(r, qu_failure(qu, mode)),
{
    let raw_test = match mode {
        QualifierMode::RawTest => true,
        QualifierMode::Standard => false,
    };
    if qu <= 3 || (raw_test && qu <= 31) {
        Ok(())
    } else if raw_test {
        failure_of(Iec104ErrorCode::InvalidQualifier, text_with_number("QOC QU ", qu as u64, " is invalid, expected 0..=31"))
    } else {
        failure_of(Iec104ErrorCode::InvalidQualifier, text_with_number("QOC QU ", qu as u64, " is invalid, expected 0..=3"))
    }
}

pub fn validate_setpoint_qos(qos: SetpointQos) -> (r: Result<(), Iec104ValidationError>)
    ensures
        check_matches(r, qos_failure(qos)),
{
    if qos.ql <= 0x7F {
        Ok(())
    } else {
        failure_of(Iec104ErrorCode::InvalidQualifier, text_with_number("QOS QL ", qos.ql as u64, " is invalid, expected 0..=127"))
    }
}

fn validate_normalized(value: Option<i16>) -> (r: Result<(), Iec104ValidationError>)
    ensures
        check_matches(r, normalized_failure(value)),
{
    match value {
        Some(_) => Ok(()),
        None => failure_of(Iec104ErrorCode::InvalidValue, String::from_str("normalized setpoint must be finite and in [-1.0, 1.0)")),
    }
}

fn validate_finite(bits: u32) -> (r: Result<(), Iec104ValidationError>)
    ensures
        check_matches(r, finite_failure(bits)),
{
    if (bits / 8388608) % 256 == 255 {
        return failure_of(Iec104ErrorCode::InvalidValue, String::from_str("setpoint short float must be finite"));
    }
    Ok(())
}

/// Payload of a general interrogation: IOA 0 and the QOI.
pub fn build_general_interrogation_payload(qualifier: u8) -> (r: Vec<u8>)
    ensures
        r@ == ioa3(0) + seq![qualifier],
{
    build_ioa_qualifier_payload(0, qualifier)
}

/// Payload of a counter interrogation: IOA 0 and the QCC.
pub fn build_counter_interrogation_payload(qualifier: u8) -> (r: Vec<u8>)
    ensures
        r@ == ioa3(0) + seq![qualifier],
{
    build_ioa_qualifier_payload(0, qualifier)
}

/// Payload of a reset process command: IOA and the QRP.
pub fn build_reset_process_payload(ioa: u32, qualifier: u8) -> (r: Vec<u8>)
    ensures
        r@ == ioa3(ioa) + seq![qualifier],
{
    build_ioa_qualifier_payload(ioa, qualifier)
}

/// An IOA followed by one qualifier octet.
pub fn build_ioa_qualifier_payload(ioa: u32, qualifier: u8) -> (r: Vec<u8>)
    ensures
        r@ == ioa3(ioa) + seq![qualifier],
{
    let mut v = ioa_field(ioa);
    v.push(qualifier);
    v
}

/// Single command: IOA and SCO.
pub fn build_single_control_payload(ioa: u32, value: bool, select: bool, qu: u8) -> (r: Vec<u8>)
    ensures
        r@ == ioa3(ioa) + seq![command_octet(bool_bit(value), qu, select)],
{
    let mut v = ioa_field(ioa);
    v.push(command_qualifier_octet(if value { 1 } else { 0 }, qu, select));
    v
}

/// Double command: IOA and DCO.
pub fn build_double_control_payload(ioa: u32, value: u8, select: bool, qu: u8) -> (r: Vec<u8>)
    ensures
        r@ == ioa3(ioa) + seq![command_octet(value, qu, select)],
{
    let mut v = ioa_field(ioa);
    v.push(command_qualifier_octet(value, qu, select));
    v
}

/// Regulating step command: IOA and RCO.
pub fn build_regulating_step_payload(ioa: u32, step: u8, select: bool, qu: u8) -> (r: Vec<u8>)
    ensures
        r@ == ioa3(ioa) + seq![command_octet(step, qu, select)],
{
    let mut v = ioa_field(ioa);
    v.push(command_qualifier_octet(step, qu, select));
    v
}

/// Normalized set-point: IOA, raw 16-bit value and QOS.
pub fn build_setpoint_normalized_payload(ioa: u32, value: i16, qualifier: u8) -> (r: Vec<u8>)
    ensures
        r@ == setpoint_i16_field(ioa, value, qualifier),
{
    build_setpoint_scaled_payload(ioa, value, qualifier)
}

/// Scaled set-point: IOA, 16-bit value and QOS.
pub fn build_setpoint_scaled_payload(ioa: u32, value: i16, qualifier: u8) -> (r: Vec<u8>)
    ensures
        r@ == setpoint_i16_field(ioa, value, qualifier),
{
    let mut v = ioa_field(ioa);
    push_le16(&mut v, value as u16);
    v.push(qualifier);
    v
}

/// Short float set-point: IOA, the four bytes of the IEEE 754 value and QOS.
pub fn build_setpoint_float_payload(ioa: u32, value_bits: u32, qualifier: u8) -> (r: Vec<u8>)
    ensures
        r@ == ioa3(ioa) + le32(value_bits) + seq![qualifier],
{
    let mut v = ioa_field(ioa);
    push_le32(&mut v, value_bits);
    v.push(qualifier);
    v
}

/// Bitstring command: IOA and the 32-bit string.
pub fn build_bitstring_command_payload(ioa: u32, value: u32) -> (r: Vec<u8>)
    ensures
        r@ == ioa3(ioa) + le32(value),
{
    let mut v = ioa_field(ioa);
    push_le32(&mut v, value);
    v
}

/// Test command: IOA and the two-byte test pattern.
pub fn build_test_command_payload(ioa: u32, pattern: u16) -> (r: Vec<u8>)
    ensures
        r@ == ioa3(ioa) + le16(pattern),
{
    let mut v = ioa_field(ioa);
    push_le16(&mut v, pattern);
    v
}

/// Test command with time tag: IOA, test pattern and CP56Time2a.
pub fn build_test_command_ta_payload(ioa: u32, pattern: u16, timestamp: Cp56Time) -> (r: Vec<u8>)
    requires
        cp56_encodable(timestamp),
    ensures
        r@ == ioa3(ioa) + le16(pattern) + cp56_bytes(timestamp),
{
    let mut v = build_test_command_payload(ioa, pattern);
    push_cp56(&mut v, timestamp);
    v
}

/// The bare CP56Time2a of a clock synchronization.
pub fn build_clock_sync_payload(timestamp: Cp56Time) -> (r: Vec<u8>)
    requires
        cp56_encodable(timestamp),
    ensures
        r@ == cp56_bytes(timestamp),
{
    let mut v: Vec<u8> = Vec::new();
    push_cp56(&mut v, timestamp);
    assert(v@ =~= cp56_bytes(timestamp));
    v
}

/// Clock synchronization command: IOA and CP56Time2a.
pub fn build_clock_sync_command_payload(ioa: u32, timestamp: Cp56Time) -> (r: Vec<u8>)
    requires
        cp56_encodable(timestamp),
    ensures
        r@ == ioa3(ioa) + cp56_bytes(timestamp),
{
    let mut v = ioa_field(ioa);
    push_cp56(&mut v, timestamp);
    v
}

/// Read command: the IOA alone.
pub fn encode_read_command(ioa: u32) -> (r: Vec<u8>)
    ensures
        r@ == ioa3(ioa),
{
    ioa_field(ioa)
}

/// Cause of transmission of a command.
pub fn command_cause(command: &Iec104Command) -> (r: u16)
    ensures
        r == spec_command_cause(*command),
{
    match command {
        Iec104Command::SingleCommand { se, .. } | Iec104Command::DoubleCommand { se, .. }
        | Iec104Command::RegulatingStepCommand { se, .. } | Iec104Command::SingleCommandTimed { se, .. }
        | Iec104Command::DoubleCommandTimed { se, .. } | Iec104Command::RegulatingStepCommandTimed { se, .. } =>
            se.cause() as u16,
        Iec104Command::SetPointNormalized { qos, .. } | Iec104Command::SetPointScaled { qos, .. }
        | Iec104Command::SetPointShortFloat { qos, .. } | Iec104Command::SetPointNormalizedTimed { qos, .. }
        | Iec104Command::SetPointScaledTimed { qos, .. } | Iec104Command::SetPointShortFloatTimed { qos, .. } =>
            qos.se.cause() as u16,
        _ => COT_ACTIVATION as u16,
    }
}

/// A build result in terms of the abstract command: on success the ASDU that
/// carries the command, on failure the first failing check.
pub open spec fn build_matches(
    r: Result<AsduInfo, Iec104ValidationError>,
    ca: u16,
    cmd: Iec104Command,
    mode: QualifierMode,
    now: Cp56Time,
) -> bool {
    match r {
        Ok(a) => {
            &&& build_failure(ca, cmd, mode) is None
            &&& a.type_id == command_type_id(cmd)
            &&& a.cause == spec_command_cause(cmd)
            &&& a.common_address == ca
            &&& a.data@ == command_payload(cmd, now)
        },
        Err(e) => build_failure(ca, cmd, mode) == Some(err_view(e)),
    }
}

/// Builder of command ASDUs.
pub struct MasterCommands;

impl MasterCommands {
    /// Builds the ASDU of a command with the standard QU check.
    pub fn build_asdu(common_address: u16, command: &Iec104Command, now: Cp56Time) -> (r: Result<AsduInfo, Iec104ValidationError>)
        requires
            build_failure(common_address, *command, QualifierMode::Standard) is None ==> command_times_encodable(*command, now),
        ensures
            build_matches(r, common_address, *command, QualifierMode::Standard, now),
    {
        Self::build_asdu_with_qualifier_mode(common_address, command, QualifierMode::Standard, now)
    }

    /// Validates a command and builds its ASDU; `now` is the time tag a clock
    /// synchronization without an explicit time carries.
    pub fn build_asdu_with_qualifier_mode(
        common_address: u16,
        command: &Iec104Command,
        qualifier_mode: QualifierMode,
        now: Cp56Time,
    ) -> (r: Result<AsduInfo, Iec104ValidationError>)
        requires
            build_failure(common_address, *command, qualifier_mode) is None ==> command_times_encodable(*command, now),
        ensures
            build_matches(r, common_address, *command, qualifier_mode, now),
    {
        validate_common_address(common_address)?;
        let cause = command_cause(command);
        let (type_id, data): (u8, Vec<u8>) = match command {
            Iec104Command::GeneralInterrogation { qoi } => {
                validate_general_interrogation_qualifier(qoi)?;
                (100, build_general_interrogation_payload(qoi.as_u8()))
            },
            Iec104Command::CounterInterrogation { qcc } => {
                validate_counter_interrogation_qualifier(*qcc)?;
                (101, build_counter_interrogation_payload(qcc.as_u8()))
            },
            Iec104Command::ClockSynchronization { timestamp } => {
                let ts = match timestamp { Some(t) => *t, None => now };
                (103, build_clock_sync_command_payload(0, ts))
            },
            Iec104Command::TestCommand { ioa, pattern } => {
                validate_ioa(*ioa)?;
                validate_test_pattern(*pattern)?;
                (104, build_test_command_payload(*ioa, *pattern))
            },
            Iec104Command::ResetProcessCommand { ioa, qrp } => {
                validate_ioa(*ioa)?;
                (105, build_reset_process_payload(*ioa, qrp.as_u8()))
            },
            Iec104Command::SingleCommand { ioa, value, se, qu } => {
                validate_ioa(*ioa)?;
                validate_command_qualifier(*qu, qualifier_mode)?;
                (45, build_single_control_payload(*ioa, *value, se.is_select(), *qu))
            },
            Iec104Command::DoubleCommand { ioa, value, se, qu } => {
                validate_ioa(*ioa)?;
                validate_double_command_value(*value)?;
                validate_command_qualifier(*qu, qualifier_mode)?;
                (46, build_double_control_payload(*ioa, *value, se.is_select(), *qu))
            },
            Iec104Command::RegulatingStepCommand { ioa, step, se, qu } => {
                validate_ioa(*ioa)?;
                validate_regulating_step(*step)?;
                validate_command_qualifier(*qu, qualifier_mode)?;
                (47, build_regulating_step_payload(*ioa, *step, se.is_select(), *qu))
            },
            Iec104Command::SetPointNormalized { ioa, value, qos } => {
                validate_ioa(*ioa)?;
                validate_setpoint_qos(*qos)?;
                validate_normalized(*value)?;
                let raw = match value { Some(v) => *v, None => 0 };
                (48, build_setpoint_normalized_payload(*ioa, raw, qos.as_u8()))
            },
            Iec104Command::SetPointScaled { ioa, value, qos } => {
                validate_ioa(*ioa)?;
                validate_setpoint_qos(*qos)?;
                (49, build_setpoint_scaled_payload(*ioa, *value, qos.as_u8()))
            },
            Iec104Command::SetPointShortFloat { ioa, value_bits, qos } => {
                validate_ioa(*ioa)?;
                validate_finite(*value_bits)?;
                validate_setpoint_qos(*qos)?;
                (50, build_setpoint_float_payload(*ioa, *value_bits, qos.as_u8()))
            },
            Iec104Command::BitStringCommand { ioa, value } => {
                validate_ioa(*ioa)?;
                (51, build_bitstring_command_payload(*ioa, *value))
            },
            Iec104Command::SingleCommandTimed { ioa, value, se, qu, timestamp } => {
                validate_ioa(*ioa)?;
                validate_command_qualifier(*qu, qualifier_mode)?;
                let mut d = build_single_control_payload(*ioa, *value, se.is_select(), *qu);
                push_cp56(&mut d, *timestamp);
                (58, d)
            },
            Iec104Command::DoubleCommandTimed { ioa, value, se, qu, timestamp } => {
                validate_ioa(*ioa)?;
                validate_double_command_value(*value)?;
                validate_command_qualifier(*qu, qualifier_mode)?;
                let mut d = build_double_control_payload(*ioa, *value, se.is_select(), *qu);
                push_cp56(&mut d, *timestamp);
                (59, d)
            },
            Iec104Command::RegulatingStepCommandTimed { ioa, step, se, qu, timestamp } => {
                validate_ioa(*ioa)?;
                validate_regulating_step(*step)?;
                validate_command_qualifier(*qu, qualifier_mode)?;
                let mut d = build_regulating_step_payload(*ioa, *step, se.is_select(), *qu);
                push_cp56(&mut d, *timestamp);
                (60, d)
            },
            Iec104Command::SetPointNormalizedTimed { ioa, value, qos, timestamp } => {
                validate_ioa(*ioa)?;
                validate_setpoint_qos(*qos)?;
                validate_normalized(*value)?;
                let raw = match value { Some(v) => *v, None => 0 };
                let mut d = build_setpoint_normalized_payload(*ioa, raw, qos.as_u8());
                push_cp56(&mut d, *timestamp);
                (61, d)
            },
            Iec104Command::SetPointScaledTimed { ioa, value, qos, timestamp } => {
                validate_ioa(*ioa)?;
                validate_setpoint_qos(*qos)?;
                let mut d = build_setpoint_scaled_payload(*ioa, *value, qos.as_u8());
                push_cp56(&mut d, *timestamp);
                (62, d)
            },
            Iec104Command::SetPointShortFloatTimed { ioa, value_bits, qos, timestamp } => {
                validate_ioa(*ioa)?;
                validate_finite(*value_bits)?;
                validate_setpoint_qos(*qos)?;
                let mut d = build_setpoint_float_payload(*ioa, *value_bits, qos.as_u8());
                push_cp56(&mut d, *timestamp);
                (63, d)
            },
            Iec104Command::BitStringCommandTimed { ioa, value, timestamp } => {
                validate_ioa(*ioa)?;
                let mut d = build_bitstring_command_payload(*ioa, *value);
                push_cp56(&mut d, *timestamp);
                (64, d)
            },
            Iec104Command::ReadCommand { ioa } => {
                validate_ioa(*ioa)?;
                (102, encode_read_command(*ioa))
            },
        };
        Ok(AsduInfo { type_id, cause, common_address, data })
    }
}


/// Encodes an ASDU with one information object and no sequence flag.
pub fn encode_asdu(asdu: &AsduInfo) -> (r: Vec<u8>)
    ensures
        r@ == asdu_bytes(asdu.type_id, asdu.cause, asdu.common_address, asdu.data@, 1, false),
{
    encode_asdu_with_vsq(asdu, 1, false)
}

/// Encodes an ASDU declaring `object_count` information objects, without the sequence flag.
pub fn encode_asdu_with_count(asdu: &AsduInfo, object_count: u8) -> (r: Vec<u8>)
    ensures
        r@ == asdu_bytes(asdu.type_id, asdu.cause, asdu.common_address, asdu.data@, object_count, false),
{
    encode_asdu_with_vsq(asdu, object_count, false)
}

/// Encodes an ASDU with an explicit variable structure qualifier.
pub fn encode_asdu_with_vsq(asdu: &AsduInfo, object_count: u8, sequence: bool) -> (r: Vec<u8>)
    ensures
        r@ == asdu_bytes(asdu.type_id, asdu.cause, asdu.common_address, asdu.data@, object_count, sequence),
{
    encode_wire_asdu(asdu.type_id, asdu.cause, asdu.common_address, asdu.data.as_slice(), object_count, sequence)
}

/// A counter interrogation that builds is type 101 with one object at
/// address 0 whose QCC octet holds the FRZ code in bits 6-7 (read 0, freeze
/// without reset 1, freeze with reset 2, reset 3) and the request group in
/// bits 0-5.
pub proof fn counter_interrogation_carries_frz(
    ca: u16,
    qcc: CounterInterrogationQualifier,
    mode: QualifierMode,
    now: Cp56Time,
    a: AsduInfo,
)
    requires
        build_matches(Ok(a), ca, Iec104Command::CounterInterrogation { qcc }, mode, now),
    ensures
        a.type_id == 101,
        a.data@.len() == 4,
        a.data@[0] == 0 && a.data@[1] == 0 && a.data@[2] == 0,
        a.data@[3] / 64 == (match qcc.freeze {
            CounterFreeze::Read => 0int,
            CounterFreeze::Freeze => 1int,
            CounterFreeze::FreezeAndReset => 2int,
            CounterFreeze::Reset => 3int,
        }),
        a.data@[3] % 64 == qcc.request % 64,
        1 <= qcc.request <= 5,
        a.data@[3] == (match qcc.freeze {
            CounterFreeze::Read => 0int,
            CounterFreeze::Freeze => 64int,
            CounterFreeze::FreezeAndReset => 128int,
            CounterFreeze::Reset => 192int,
        }) + qcc.request,
{
    assert(a.data@ =~= seq![0u8, 0u8, 0u8, qcc.spec_as_u8()]);
}

/// A general interrogation that builds is type 100 with cause 6 (activation)
/// and one object at address 0 whose QOI is 20 for the station and 20 + g for
/// group g (1..=16).
pub proof fn general_interrogation_carries_qoi(
    ca: u16,
    qoi: InterrogationQualifier,
    mode: QualifierMode,
    now: Cp56Time,
    a: AsduInfo,
)
    requires
        build_matches(Ok(a), ca, Iec104Command::GeneralInterrogation { qoi }, mode, now),
    ensures
        a.type_id == 100,
        a.cause == 6,
        a.common_address == ca,
        a.data@.len() == 4,
        a.data@[0] == 0 && a.data@[1] == 0 && a.data@[2] == 0,
        a.data@[3] == (match qoi {
            InterrogationQualifier::Station => 20int,
            InterrogationQualifier::Group { group } => 20 + group,
        }),
        qoi matches InterrogationQualifier::Group { group } ==> 1 <= group <= 16,
{
    assert(a.data@ =~= seq![0u8, 0u8, 0u8, qoi.spec_as_u8()]);
}

/// A double command that builds is type 46 whose object carries the commanded
/// state (1 off, 2 on) in bits 0-1, the qualifier in bits 2-6 and the S/E bit
/// (set for select and cancel) in bit 7; a cancel goes out as a deactivation
/// (cause 8), anything else as an activation (cause 6).
pub proof fn double_command_carries_state(
    ca: u16,
    ioa: u32,
    value: u8,
    se: SelectExecute,
    qu: u8,
    mode: QualifierMode,
    now: Cp56Time,
    a: AsduInfo,
)
    requires
        build_matches(Ok(a), ca, Iec104Command::DoubleCommand { ioa, value, se, qu }, mode, now),
    ensures
        a.type_id == 46,
        a.cause == (if se == SelectExecute::Cancel { 8int } else { 6int }),
        a.data@.len() == 4,
        a.data@[0] == ioa % 256 && a.data@[1] == (ioa / 256) % 256 && a.data@[2] == (ioa / 65536) % 256,
        a.data@[3] % 4 == value,
        (a.data@[3] / 4) % 32 == qu % 32,
        a.data@[3] / 128 == (if se == SelectExecute::Execute { 0int } else { 1int }),
{
    let oct = crate::wire::command_octet(value, qu, se.spec_is_select());
    assert(a.data@ =~= ioa3(ioa) + seq![oct]);
    assert(1 <= value <= 2) by {
        assert(command_failure(Iec104Command::DoubleCommand { ioa, value, se, qu }, mode) is None);
    }
    assert(oct % 4 == value && (oct / 4) % 32 == qu % 32
        && oct / 128 == (if se.spec_is_select() { 1int } else { 0int })) by (nonlinear_arith)
        requires oct == ((value % 4) + (qu % 32) * 4 + if se.spec_is_select() { 128int } else { 0int }) as u8, 1 <= value <= 2;
}

/// A single command that builds is type 45 whose object carries the commanded
/// state (1 on, 0 off) in bit 0, the qualifier in bits 2-6 and the S/E bit in
/// bit 7 (set for select and cancel); a cancel is a deactivation (cause 8).
pub proof fn single_command_carries_state(
    ca: u16,
    ioa: u32,
    value: bool,
    se: SelectExecute,
    qu: u8,
    mode: QualifierMode,
    now: Cp56Time,
    a: AsduInfo,
)
    requires
        build_matches(Ok(a), ca, Iec104Command::SingleCommand { ioa, value, se, qu }, mode, now),
    ensures
        a.type_id == 45,
        a.cause == (if se == SelectExecute::Cancel { 8int } else { 6int }),
        a.data@.len() == 4,
        a.data@[0] == ioa % 256 && a.data@[1] == (ioa / 256) % 256 && a.data@[2] == (ioa / 65536) % 256,
        a.data@[3] % 4 == (if value { 1int } else { 0int }),
        (a.data@[3] / 4) % 32 == qu % 32,
        a.data@[3] / 128 == (if se == SelectExecute::Execute { 0int } else { 1int }),
{
    let b: u8 = if value { 1 } else { 0 };
    let oct = crate::wire::command_octet(b, qu, se.spec_is_select());
    assert(a.data@ =~= ioa3(ioa) + seq![oct]);
    assert(oct % 4 == b && (oct / 4) % 32 == qu % 32
        && oct / 128 == (if se.spec_is_select() { 1int } else { 0int })) by (nonlinear_arith)
        requires oct == ((b % 4) + (qu % 32) * 4 + if se.spec_is_select() { 128int } else { 0int }) as u8, b <= 1;
}

/// A regulating step command that builds is type 47 whose object carries the
/// step (1 lower, 2 higher) in bits 0-1, the qualifier in bits 2-6 and the S/E
/// bit in bit 7.
pub proof fn regulating_step_carries_step(
    ca: u16,
    ioa: u32,
    step: u8,
    se: SelectExecute,
    qu: u8,
    mode: QualifierMode,
    now: Cp56Time,
    a: AsduInfo,
)
    requires
        build_matches(Ok(a), ca, Iec104Command::RegulatingStepCommand { ioa, step, se, qu }, mode, now),
    ensures
        a.type_id == 47,
        a.cause == (if se == SelectExecute::Cancel { 8int } else { 6int }),
        a.data@.len() == 4,
        a.data@[3] % 4 == step,
        1 <= step <= 2,
        (a.data@[3] / 4) % 32 == qu % 32,
        a.data@[3] / 128 == (if se == SelectExecute::Execute { 0int } else { 1int }),
{
    let oct = crate::wire::command_octet(step, qu, se.spec_is_select());
    assert(a.data@ =~= ioa3(ioa) + seq![oct]);
    assert(command_failure(Iec104Command::RegulatingStepCommand { ioa, step, se, qu }, mode) is None);
    assert(oct % 4 == step && (oct / 4) % 32 == qu % 32
        && oct / 128 == (if se.spec_is_select() { 1int } else { 0int })) by (nonlinear_arith)
        requires oct == ((step % 4) + (qu % 32) * 4 + if se.spec_is_select() { 128int } else { 0int }) as u8, 1 <= step <= 2;
}

/// A double command is built only for the states off (1) and on (2), and a
/// control command's qualifier only up to 3 (up to 31 in raw test mode).
pub proof fn command_states_are_checked(ioa: u32, value: u8, se: SelectExecute, qu: u8, mode: QualifierMode)
    requires
        ioa <= 0x00FF_FFFF,
    ensures
        (command_failure(Iec104Command::DoubleCommand { ioa, value, se, qu }, mode) is None)
            <==> ((value == 1 || value == 2) && (qu <= 3 || (mode is RawTest && qu <= 31))),
{
}

} // verus!
