//! The decoded form of a received ASDU, as the frame decoder hands it over.
//!
//! Floating point values travel as their IEEE 754 bits.

use vstd::prelude::*;

use crate::cp56::Cp56Time;

verus! {

/// Command qualifier octet of a received command, tagged by its kind.
#[derive(Clone, Copy, Debug, PartialEq, Eq, Structural)]
pub enum CommandQualifier {
    Sco { raw: u8 },
    Dco { raw: u8 },
    Rco { raw: u8 },
    Qos { raw: u8 },
    Qrp { raw: u8 },
    Other { raw: u8 },
}

impl CommandQualifier {
    pub open spec fn spec_as_u8(self) -> u8 {
        match self {
            CommandQualifier::Sco { raw } | CommandQualifier::Dco { raw } | CommandQualifier::Rco { raw }
            | CommandQualifier::Qos { raw } | CommandQualifier::Qrp { raw } | CommandQualifier::Other { raw } => raw,
        }
    }

    /// The raw qualifier octet.
    pub fn as_u8(&self) -> (r: u8)
        ensures
            r == self.spec_as_u8(),
    {
        match self {
            CommandQualifier::Sco { raw } | CommandQualifier::Dco { raw } | CommandQualifier::Rco { raw }
            | CommandQualifier::Qos { raw } | CommandQualifier::Qrp { raw } | CommandQualifier::Other { raw } => *raw,
        }
    }
}

/// The information element of a received command.
#[derive(Clone, Debug)]
pub enum DecodedCommandDetail {
    Single { value: bool, select: bool },
    Double { value: u8, select: bool },
    Step { position: u8, select: bool },
    SetPointFloat { bits: u32 },
    SetPointNormalized { value: i16 },
    SetPointScaled { value: i16 },
    ClockSynchronization { time: Cp56Time },
    ResetProcess,
    TestPattern { pattern: u16 },
    Raw { bytes: Vec<u8> },
    BitString { value: u32 },
    Read,
}

/// One received command object.
#[derive(Clone, Debug)]
pub struct DecodedCommand {
    pub ioa: u32,
    pub qualifier: CommandQualifier,
    pub timestamp: Option<Vec<u8>>,
    pub detail: DecodedCommandDetail,
}

/// One received interrogation object (QOI or QCC octet).
#[derive(Clone, Copy, Debug)]
pub struct DecodedInterrogation {
    pub ioa: u32,
    pub qualifier: u8,
}

/// The value of a received measurement.
#[derive(Clone, Copy, Debug)]
pub enum DecodedMeasurementValue {
    Single { value: bool },
    Double { value: u8 },
    StepPosition { value: i8, transient: bool },
    BitString { value: u32 },
    Normalized { value: i16 },
    Scaled { value: i16 },
    Float { bits: u32 },
    Integrated { value: i32 },
    PackedStatus { status: u16 },
    Raw,
}

/// The flags every quality descriptor carries.
#[derive(Clone, Copy, Debug, PartialEq, Eq, Structural)]
pub struct DecodedQualityCommon {
    pub iv: bool,
    pub nt: bool,
    pub sb: bool,
    pub bl: bool,
}

/// The quality descriptor of a received measurement, field by field.
#[derive(Clone, Copy, Debug, PartialEq, Eq, Structural)]
pub enum DecodedMeasurementQualityDetail {
    Siq { raw: u8, spi: bool, iv: bool, nt: bool, sb: bool, bl: bool },
    Diq { raw: u8, dpi: u8, iv: bool, nt: bool, sb: bool, bl: bool },
    Qds { raw: u8, ov: bool, iv: bool, nt: bool, sb: bool, bl: bool, transient: bool, scd_status: u16, scd_change: u16 },
    Bcr { raw: u8, sq: u8, cy: bool, ca: bool, iv: bool },
    Absent,
}

/// The time tag of a received measurement, field by field.
#[derive(Clone, Copy, Debug)]
pub enum DecodedMeasurementTimestamp {
    Cp56 {
        raw: [u8; 7],
        milliseconds: u16,
        minutes: u8,
        hours: u8,
        day: u8,
        month: u8,
        year: u16,
        weekday: u8,
        summer_time: bool,
        invalid: bool,
    },
    Cp24 { raw: [u8; 3], milliseconds: u16, minutes: u8, invalid: bool },
}

/// One received measurement object.
#[derive(Clone, Copy, Debug)]
pub struct DecodedMeasurement {
    pub ioa: u32,
    pub value: DecodedMeasurementValue,
    pub quality: u8,
    pub quality_common: DecodedQualityCommon,
    pub quality_detail: DecodedMeasurementQualityDetail,
    pub timestamp: Option<DecodedMeasurementTimestamp>,
}

/// One received file transfer object.
#[derive(Clone, Debug)]
pub enum DecodedFileTransferRecord {
    FileReady { ioa: u32, file_name: u16, length: u32, qualifier: u8 },
    SectionReady { ioa: u32, file_name: u16, section: u8, length: u32, qualifier: u8 },
    SelectCall { ioa: u32, file_name: u16, section: u8, qualifier: u8 },
    LastSection { ioa: u32, file_name: u16, last_section_number: u8, qualifier: u8 },
    AckSection { ioa: u32, file_name: u16, section: u8, qualifier: u8 },
    Segment { ioa: u32, file_name: u16, section: u8, data: Vec<u8> },
    Directory {
        ioa: u32,
        file_name: u16,
        length: u32,
        status_raw: u8,
        is_file: bool,
        is_last_file_of_directory: bool,
        timestamp: Option<[u8; 7]>,
    },
    QueryLog { ioa: u32, file_name: u16 },
    Raw { bytes: Vec<u8> },
}

/// The objects of a received ASDU.
#[derive(Clone, Debug)]
pub enum DecodedAsduBody {
    Measurements { items: Vec<DecodedMeasurement> },
    Commands { items: Vec<DecodedCommand> },
    Interrogations { items: Vec<DecodedInterrogation> },
    FileTransfers { items: Vec<DecodedFileTransferRecord> },
    Raw,
}

/// A received ASDU.
#[derive(Clone, Debug)]
pub struct DecodedAsdu {
    pub type_id: u8,
    pub cause: u16,
    pub common_address: u16,
    pub body: DecodedAsduBody,
}

/// The information object address of a file transfer record (0 for an undecoded one).
pub open spec fn spec_record_ioa(record: DecodedFileTransferRecord) -> u32 {
    match record {
        DecodedFileTransferRecord::FileReady { ioa, .. } | DecodedFileTransferRecord::SectionReady { ioa, .. }
        | DecodedFileTransferRecord::SelectCall { ioa, .. } | DecodedFileTransferRecord::LastSection { ioa, .. }
        | DecodedFileTransferRecord::AckSection { ioa, .. } | DecodedFileTransferRecord::Segment { ioa, .. }
        | DecodedFileTransferRecord::Directory { ioa, .. } | DecodedFileTransferRecord::QueryLog { ioa, .. } => ioa,
        DecodedFileTransferRecord::Raw { .. } => 0,
    }
}

pub fn file_transfer_record_ioa(record: &DecodedFileTransferRecord) -> (r: u32)
    ensures
        r == spec_record_ioa(*record),
{
    match record {
        DecodedFileTransferRecord::FileReady { ioa, .. } | DecodedFileTransferRecord::SectionReady { ioa, .. }
        | DecodedFileTransferRecord::SelectCall { ioa, .. } | DecodedFileTransferRecord::LastSection { ioa, .. }
        | DecodedFileTransferRecord::AckSection { ioa, .. } | DecodedFileTransferRecord::Segment { ioa, .. }
        | DecodedFileTransferRecord::Directory { ioa, .. } | DecodedFileTransferRecord::QueryLog { ioa, .. } => *ioa,
        DecodedFileTransferRecord::Raw { .. } => 0,
    }
}

/// The address of the first object of a received ASDU.
pub open spec fn spec_first_ioa(asdu: DecodedAsdu) -> Option<u32> {
    match asdu.body {
        DecodedAsduBody::Measurements { items } => if items@.len() > 0 { Some(items@[0].ioa) } else { None },
        DecodedAsduBody::Commands { items } => if items@.len() > 0 { Some(items@[0].ioa) } else { None },
        DecodedAsduBody::Interrogations { items } => if items@.len() > 0 { Some(items@[0].ioa) } else { None },
        DecodedAsduBody::FileTransfers { items } => if items@.len() > 0 { Some(spec_record_ioa(items@[0])) } else { None },
        DecodedAsduBody::Raw => None,
    }
}

/// Address of the first information object of a received ASDU, if it has one.
pub fn first_ioa_from_decoded_asdu(decoded_asdu: &DecodedAsdu) -> (r: Option<u32>)
    ensures
        r == spec_first_ioa(*decoded_asdu),
{
    match &decoded_asdu.body {
        DecodedAsduBody::Measurements { items } => if items.len() > 0 { Some(items[0].ioa) } else { None },
        DecodedAsduBody::Commands { items } => if items.len() > 0 { Some(items[0].ioa) } else { None },
        DecodedAsduBody::Interrogations { items } => if items.len() > 0 { Some(items[0].ioa) } else { None },
        DecodedAsduBody::FileTransfers { items } => if items.len() > 0 { Some(file_transfer_record_ioa(&items[0])) } else { None },
        DecodedAsduBody::Raw => None,
    }
}

} // verus!
