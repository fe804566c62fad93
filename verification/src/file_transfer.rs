//! Master file transfer: the session a connection runs (directory listing,
//! log query, download, upload), which received records it accepts, the
//! inbox the transfer flows wait on, and the checks and payloads of each step.

use vstd::prelude::*;
use vstd::string::*;

use crate::cp56::{cp56_fields, cp56_is_resolvable, cp56_resolvable, parse_cp56_time2a, Cp56Time};
use crate::api::FileTransferFailure;
use crate::decoded::{DecodedAsdu, DecodedAsduBody, DecodedFileTransferRecord};
use crate::policy::{connection_params_to_link_params, ConnectionParams, LinkParams};
use crate::strutil::{trim_bounds, trim_seq};
use crate::supervision::{DataTransferState, TransportState};
use crate::text::{decimal, hex2, join2, join3, text_with_number, u64_decimal, u8_hex2};
use crate::wire::{append_bytes, ioa3, ioa_field, le16, push_le16};

verus! {

/// Largest number of records an inbox holds before the session fails.
pub const FILE_TRANSFER_MAX_INBOX_RECORDS: usize = 1024;
/// Largest number of directory entries a session collects before it fails.
pub const FILE_TRANSFER_MAX_DIRECTORY_ENTRIES: usize = 4096;
/// Seconds a flow waits for each response.
pub const FILE_TRANSFER_TIMEOUT_SECONDS: u64 = 10;
/// The one section a transfer uses.
pub const FILE_TRANSFER_SINGLE_SECTION: u8 = 1;
/// Cause of transmission of file transfer ASDUs.
pub const COT_FILE_TRANSFER: u8 = 13;

/// What a file transfer does.
#[derive(Clone, Copy, Debug, PartialEq, Eq, Structural)]
pub enum MasterFileTransferMode {
    Directory,
    Download,
    Upload,
    QueryLog,
}

/// The step a file transfer is at.
#[derive(Clone, Copy, Debug, PartialEq, Eq, Structural)]
pub enum MasterFileTransferStage {
    Preparing,
    DirectoryListing,
    QueryLogListing,
    AwaitingDownloadFileReady,
    ReceivingDownloadSection,
    AwaitingUploadFileAck,
    AwaitingUploadSectionAck,
    SendingUploadData,
    AwaitingUploadCompletionAck,
    Finalizing,
    Finished,
}

/// Outcome of a file transfer.
#[derive(Clone, Copy, Debug, PartialEq, Eq, Structural)]
pub enum MasterFileTransferState {
    Running,
    Success,
    Failed,
    Cancelled,
}

/// An entry of a remote directory or log listing. The time tag is kept as
/// received, valid or not.
#[derive(Clone, Copy, Debug)]
pub struct MasterRemoteDirectoryEntry {
    pub ioa: u32,
    pub nof: u16,
    pub length: u32,
    pub status_raw: u8,
    pub is_file: bool,
    pub is_last: bool,
    pub timestamp: Option<[u8; 7]>,
}

/// What the user sees of a file transfer.
#[derive(Clone, Debug)]
pub struct MasterFileTransferSession {
    pub session_id: String,
    pub station_id: String,
    pub connection_id: String,
    pub slave_id: i64,
    pub common_address: u16,
    pub mode: MasterFileTransferMode,
    pub state: MasterFileTransferState,
    pub ioa: u32,
    pub nof: Option<u16>,
    pub local_path: Option<String>,
    pub bytes_total: u64,
    pub bytes_done: u64,
    pub current_section: u8,
    pub current_segment: u32,
    pub failure_reason: Option<String>,
    pub directory_entries: Vec<MasterRemoteDirectoryEntry>,
    pub created_at_ms: i64,
    pub updated_at_ms: i64,
}

/// A received record kept for the flow, with the stage it arrived in.
#[derive(Clone, Debug)]
pub struct MasterFileTransferInboxRecord {
    pub stage: MasterFileTransferStage,
    pub stage_epoch: u64,
    pub record: DecodedFileTransferRecord,
}

/// A running or finished file transfer of one connection.
#[derive(Debug)]
pub struct MasterFileTransferSessionRuntime {
    pub snapshot: MasterFileTransferSession,
    pub stage: MasterFileTransferStage,
    pub stage_epoch: u64,
    pub inbox: Vec<MasterFileTransferInboxRecord>,
    pub cancel_requested: bool,
    pub download_buffer: Vec<u8>,
}

pub open spec fn wrapping_next(e: u64) -> u64 {
    if e == u64::MAX { 0 } else { (e + 1) as u64 }
}

/// A directory record names a file, or carries a name or a length.
pub open spec fn spec_should_store_directory_entry(file_name: u16, length: u32, is_file: bool) -> bool {
    is_file || file_name != 0 || length != 0
}

/// Whether a directory record becomes an entry of the listing.
pub fn should_store_directory_entry(file_name: u16, length: u32, is_file: bool) -> (r: bool)
    ensures
        r == spec_should_store_directory_entry(file_name, length, is_file),
{
    is_file || file_name != 0 || length != 0
}

/// Which records a stage of a mode waits for.
pub open spec fn spec_stage_accepts(mode: MasterFileTransferMode, stage: MasterFileTransferStage, record: DecodedFileTransferRecord) -> bool {
    match (mode, stage) {
        (MasterFileTransferMode::Directory, MasterFileTransferStage::DirectoryListing) => record is Directory,
        (MasterFileTransferMode::QueryLog, MasterFileTransferStage::QueryLogListing) => record is Directory,
        (MasterFileTransferMode::Download, MasterFileTransferStage::AwaitingDownloadFileReady) =>
            record is FileReady || record is AckSection,
        (MasterFileTransferMode::Download, MasterFileTransferStage::ReceivingDownloadSection) =>
            record is SectionReady || record is AckSection || record is Segment || record is LastSection,
        (MasterFileTransferMode::Upload, MasterFileTransferStage::AwaitingUploadFileAck) => record is AckSection,
        (MasterFileTransferMode::Upload, MasterFileTransferStage::AwaitingUploadSectionAck) => record is AckSection,
        (MasterFileTransferMode::Upload, MasterFileTransferStage::AwaitingUploadCompletionAck) => record is AckSection,
        _ => false,
    }
}

/// Whether the current stage of a transfer accepts a kind of record.
pub fn file_transfer_stage_accepts_record(mode: MasterFileTransferMode, stage: MasterFileTransferStage, record: &DecodedFileTransferRecord) -> (r: bool)
    ensures
        r == spec_stage_accepts(mode, stage, *record),
{
    match (mode, stage) {
        (MasterFileTransferMode::Directory, MasterFileTransferStage::DirectoryListing)
        | (MasterFileTransferMode::QueryLog, MasterFileTransferStage::QueryLogListing) => {
            matches!(record, DecodedFileTransferRecord::Directory { .. })
        },
        (MasterFileTransferMode::Download, MasterFileTransferStage::AwaitingDownloadFileReady) => {
            matches!(record, DecodedFileTransferRecord::FileReady { .. } | DecodedFileTransferRecord::AckSection { .. })
        },
        (MasterFileTransferMode::Download, MasterFileTransferStage::ReceivingDownloadSection) => {
            matches!(record, DecodedFileTransferRecord::SectionReady { .. } | DecodedFileTransferRecord::AckSection { .. }
                | DecodedFileTransferRecord::Segment { .. } | DecodedFileTransferRecord::LastSection { .. })
        },
        (MasterFileTransferMode::Upload, MasterFileTransferStage::AwaitingUploadFileAck)
        | (MasterFileTransferMode::Upload, MasterFileTransferStage::AwaitingUploadSectionAck)
        | (MasterFileTransferMode::Upload, MasterFileTransferStage::AwaitingUploadCompletionAck) => {
            matches!(record, DecodedFileTransferRecord::AckSection { .. })
        },
        _ => false,
    }
}

/// Object address, file name and section a record names (no section for
/// file-ready, directory and log records); none for an undecoded record.
pub open spec fn record_target(record: DecodedFileTransferRecord) -> Option<(u32, u16, Option<u8>)> {
    match record {
        DecodedFileTransferRecord::FileReady { ioa, file_name, .. } => Some((ioa, file_name, None)),
        DecodedFileTransferRecord::SectionReady { ioa, file_name, section, .. } => Some((ioa, file_name, Some(section))),
        DecodedFileTransferRecord::SelectCall { ioa, file_name, section, .. } => Some((ioa, file_name, Some(section))),
        DecodedFileTransferRecord::LastSection { ioa, file_name, last_section_number, .. } => Some((ioa, file_name, Some(last_section_number))),
        DecodedFileTransferRecord::AckSection { ioa, file_name, section, .. } => Some((ioa, file_name, Some(section))),
        DecodedFileTransferRecord::Segment { ioa, file_name, section, .. } => Some((ioa, file_name, Some(section))),
        DecodedFileTransferRecord::Directory { ioa, file_name, .. } => Some((ioa, file_name, None)),
        DecodedFileTransferRecord::QueryLog { ioa, file_name } => Some((ioa, file_name, None)),
        DecodedFileTransferRecord::Raw { .. } => None,
    }
}

/// Whether a received record belongs to the running transfer: same common
/// address, accepted by the stage, same object address, same file (listings
/// take any file) and, where the record names one, the current section.
pub open spec fn spec_record_matches_session(
    session: MasterFileTransferSession,
    stage: MasterFileTransferStage,
    common_address: u16,
    record: DecodedFileTransferRecord,
) -> bool {
    &&& session.common_address == common_address
    &&& spec_stage_accepts(session.mode, stage, record)
    &&& record_target(record) matches Some((ioa, nof, section))
    &&& ioa == session.ioa
    &&& (session.mode == MasterFileTransferMode::Directory || session.mode == MasterFileTransferMode::QueryLog
        || session.nof == Some(nof))
    &&& (section matches Some(s) ==> session.current_section == s)
}

fn record_target_of(record: &DecodedFileTransferRecord) -> (r: Option<(u32, u16, Option<u8>)>)
    ensures
        r == record_target(*record),
{
    match record {
        DecodedFileTransferRecord::FileReady { ioa, file_name, .. } => Some((*ioa, *file_name, None)),
        DecodedFileTransferRecord::SectionReady { ioa, file_name, section, .. } => Some((*ioa, *file_name, Some(*section))),
        DecodedFileTransferRecord::SelectCall { ioa, file_name, section, .. } => Some((*ioa, *file_name, Some(*section))),
        DecodedFileTransferRecord::LastSection { ioa, file_name, last_section_number, .. } => Some((*ioa, *file_name, Some(*last_section_number))),
        DecodedFileTransferRecord::AckSection { ioa, file_name, section, .. } => Some((*ioa, *file_name, Some(*section))),
        DecodedFileTransferRecord::Segment { ioa, file_name, section, .. } => Some((*ioa, *file_name, Some(*section))),
        DecodedFileTransferRecord::Directory { ioa, file_name, .. } => Some((*ioa, *file_name, None)),
        DecodedFileTransferRecord::QueryLog { ioa, file_name } => Some((*ioa, *file_name, None)),
        DecodedFileTransferRecord::Raw { .. } => None,
    }
}

/// Whether a received record belongs to the transfer in its current stage.
pub fn file_transfer_record_matches_session(
    session: &MasterFileTransferSession,
    stage: MasterFileTransferStage,
    common_address: u16,
    record: &DecodedFileTransferRecord,
) -> (r: bool)
    ensures
        r == spec_record_matches_session(*session, stage, common_address, *record),
{
    if session.common_address != common_address || !file_transfer_stage_accepts_record(session.mode, stage, record) {
        return false;
    }
    match record_target_of(record) {
        None => false,
        Some((ioa, nof, section)) => {
            if ioa != session.ioa {
                return false;
            }
            let listing = session.mode == MasterFileTransferMode::Directory || session.mode == MasterFileTransferMode::QueryLog;
            if !listing && session.nof != Some(nof) {
                return false;
            }
            match section {
                None => true,
                Some(s) => session.current_section == s,
            }
        },
    }
}

impl MasterFileTransferSessionRuntime {
    /// The session has ended: its stage is final and its inbox empty.
    pub open spec fn finished_after(self, before: Self) -> bool {
        &&& self.stage == MasterFileTransferStage::Finished
        &&& self.stage_epoch == wrapping_next(before.stage_epoch)
        &&& self.inbox@.len() == 0
    }
}

/// Ends the runtime side of a session: final stage, new epoch, empty inbox.
pub fn finish_file_transfer_runtime(session: &mut MasterFileTransferSessionRuntime)
    ensures
        final(session).finished_after(*old(session)),
        final(session).snapshot == old(session).snapshot,
        final(session).cancel_requested == old(session).cancel_requested,
        final(session).download_buffer == old(session).download_buffer,
{
    session.stage = MasterFileTransferStage::Finished;
    session.stage_epoch = session.stage_epoch.wrapping_add(1);
    session.inbox = Vec::new();
}

/// Opens a session on a connection, unless a transfer is already running there.
pub fn start_file_transfer_session(
    existing: Option<&MasterFileTransferSessionRuntime>,
    station_id: &str,
    connection_id: &str,
    slave_id: i64,
    common_address: u16,
    mode: MasterFileTransferMode,
    ioa: u32,
    nof: Option<u16>,
    local_path: Option<String>,
    now_ms: i64,
) -> (r: Result<MasterFileTransferSessionRuntime, String>)
    ensures
        (existing matches Some(s) && s.snapshot.state == MasterFileTransferState::Running) ==>
            (r matches Err(msg) && msg@ == "当前连接已有运行中的文件传输会话"@),
        !(existing matches Some(s) && s.snapshot.state == MasterFileTransferState::Running) ==> (r matches Ok(rt) && {
            &&& rt.snapshot.station_id@ == station_id@
            &&& rt.snapshot.connection_id@ == connection_id@
            &&& crate::ids::uuid_v4_text(rt.snapshot.session_id@)
            &&& rt.snapshot.slave_id == slave_id
            &&& rt.snapshot.common_address == common_address
            &&& rt.snapshot.mode == mode
            &&& rt.snapshot.state == MasterFileTransferState::Running
            &&& rt.snapshot.ioa == ioa
            &&& rt.snapshot.nof == nof
            &&& rt.snapshot.local_path == local_path
            &&& rt.snapshot.bytes_total == 0
            &&& rt.snapshot.bytes_done == 0
            &&& rt.snapshot.current_section == 0
            &&& rt.snapshot.current_segment == 0
            &&& rt.snapshot.failure_reason is None
            &&& rt.snapshot.directory_entries@.len() == 0
            &&& rt.snapshot.created_at_ms == now_ms
            &&& rt.snapshot.updated_at_ms == now_ms
            &&& rt.stage == MasterFileTransferStage::Preparing
            &&& rt.stage_epoch == 0
            &&& rt.inbox@.len() == 0
            &&& !rt.cancel_requested
            &&& rt.download_buffer@.len() == 0
        }),
{
    match existing {
        Some(s) => {
            if s.snapshot.state == MasterFileTransferState::Running {
                return Err(String::from_str("当前连接已有运行中的文件传输会话"));
            }
        },
        None => {},
    }
    Ok(MasterFileTransferSessionRuntime {
        snapshot: MasterFileTransferSession {
            session_id: crate::ids::new_uuid(),
            station_id: String::from_str(station_id),
            connection_id: String::from_str(connection_id),
            slave_id,
            common_address,
            mode,
            state: MasterFileTransferState::Running,
            ioa,
            nof,
            local_path,
            bytes_total: 0,
            bytes_done: 0,
            current_section: 0,
            current_segment: 0,
            failure_reason: None,
            directory_entries: Vec::new(),
            created_at_ms: now_ms,
            updated_at_ms: now_ms,
        },
        stage: MasterFileTransferStage::Preparing,
        stage_epoch: 0,
        inbox: Vec::new(),
        cancel_requested: false,
        download_buffer: Vec::new(),
    })
}

/// Moves a running session to `stage`: a new epoch begins and the inbox is emptied.
pub fn set_file_transfer_stage(session: &mut MasterFileTransferSessionRuntime, stage: MasterFileTransferStage) -> (r: Result<(), String>)
    ensures
        old(session).snapshot.state != MasterFileTransferState::Running ==> {
            &&& r matches Err(msg) && msg@ == "文件传输会话已结束"@
            &&& *final(session) == *old(session)
        },
        old(session).snapshot.state == MasterFileTransferState::Running ==> {
            &&& r is Ok
            &&& final(session).stage == stage
            &&& final(session).stage_epoch == wrapping_next(old(session).stage_epoch)
            &&& final(session).inbox@.len() == 0
            &&& final(session).snapshot == old(session).snapshot
            &&& final(session).cancel_requested == old(session).cancel_requested
            &&& final(session).download_buffer == old(session).download_buffer
        },
{
    if session.snapshot.state != MasterFileTransferState::Running {
        return Err(String::from_str("文件传输会话已结束"));
    }
    session.stage = stage;
    session.stage_epoch = session.stage_epoch.wrapping_add(1);
    session.inbox = Vec::new();
    Ok(())
}

/// Cancels a running session at `now_ms`; a finished one is left as it is.
pub fn cancel_file_transfer_session(session: &mut MasterFileTransferSessionRuntime, now_ms: i64)
    ensures
        old(session).snapshot.state != MasterFileTransferState::Running ==> *final(session) == *old(session),
        old(session).snapshot.state == MasterFileTransferState::Running ==> {
            &&& final(session).cancel_requested
            &&& final(session).snapshot.state == MasterFileTransferState::Cancelled
            &&& final(session).snapshot.failure_reason matches Some(reason) && reason@ == "用户取消"@
            &&& final(session).snapshot.updated_at_ms == now_ms
            &&& final(session).finished_after(*old(session))
            &&& final(session).snapshot.bytes_done == old(session).snapshot.bytes_done
            &&& final(session).snapshot.bytes_total == old(session).snapshot.bytes_total
            &&& final(session).download_buffer == old(session).download_buffer
        },
{
    if session.snapshot.state != MasterFileTransferState::Running {
        return;
    }
    session.cancel_requested = true;
    session.snapshot.state = MasterFileTransferState::Cancelled;
    session.snapshot.failure_reason = Some(String::from_str("用户取消"));
    session.snapshot.updated_at_ms = now_ms;
    finish_file_transfer_runtime(session);
}

/// Marks a running session failed for `reason`; a finished one is left as it is.
pub fn set_file_transfer_failed(session: &mut MasterFileTransferSessionRuntime, reason: String, now_ms: i64)
    ensures
        old(session).snapshot.state != MasterFileTransferState::Running ==> *final(session) == *old(session),
        old(session).snapshot.state == MasterFileTransferState::Running ==> {
            &&& final(session).snapshot.state == MasterFileTransferState::Failed
            &&& final(session).snapshot.failure_reason == Some(reason)
            &&& final(session).snapshot.updated_at_ms == now_ms
            &&& final(session).finished_after(*old(session))
            &&& final(session).cancel_requested == old(session).cancel_requested
            &&& final(session).snapshot.bytes_done == old(session).snapshot.bytes_done
            &&& final(session).download_buffer == old(session).download_buffer
        },
{
    if session.snapshot.state != MasterFileTransferState::Running {
        return;
    }
    session.snapshot.state = MasterFileTransferState::Failed;
    session.snapshot.failure_reason = Some(reason);
    session.snapshot.updated_at_ms = now_ms;
    finish_file_transfer_runtime(session);
}

/// Marks a running session successful; a finished one is left as it is.
pub fn set_file_transfer_success(session: &mut MasterFileTransferSessionRuntime, now_ms: i64)
    ensures
        old(session).snapshot.state != MasterFileTransferState::Running ==> *final(session) == *old(session),
        old(session).snapshot.state == MasterFileTransferState::Running ==> {
            &&& final(session).snapshot.state == MasterFileTransferState::Success
            &&& final(session).snapshot.failure_reason is None
            &&& final(session).snapshot.updated_at_ms == now_ms
            &&& final(session).finished_after(*old(session))
            &&& final(session).cancel_requested == old(session).cancel_requested
            &&& final(session).snapshot.bytes_done == old(session).snapshot.bytes_done
            &&& final(session).download_buffer == old(session).download_buffer
        },
{
    if session.snapshot.state != MasterFileTransferState::Running {
        return;
    }
    session.snapshot.state = MasterFileTransferState::Success;
    session.snapshot.failure_reason = None;
    session.snapshot.updated_at_ms = now_ms;
    finish_file_transfer_runtime(session);
}

/// Records progress of a running session; each given value replaces the shown one.
pub fn update_file_transfer_progress(
    session: &mut MasterFileTransferSessionRuntime,
    bytes_done: Option<u64>,
    bytes_total: Option<u64>,
    section: Option<u8>,
    segment: Option<u32>,
    now_ms: i64,
)
    ensures
        old(session).snapshot.state != MasterFileTransferState::Running ==> *final(session) == *old(session),
        old(session).snapshot.state == MasterFileTransferState::Running ==> {
            &&& final(session).snapshot.bytes_done == (match bytes_done { Some(v) => v, None => old(session).snapshot.bytes_done })
            &&& final(session).snapshot.bytes_total == (match bytes_total { Some(v) => v, None => old(session).snapshot.bytes_total })
            &&& final(session).snapshot.current_section == (match section { Some(v) => v, None => old(session).snapshot.current_section })
            &&& final(session).snapshot.current_segment == (match segment { Some(v) => v, None => old(session).snapshot.current_segment })
            &&& final(session).snapshot.updated_at_ms == now_ms
            &&& final(session).snapshot.state == old(session).snapshot.state
            &&& final(session).stage == old(session).stage
            &&& final(session).stage_epoch == old(session).stage_epoch
            &&& final(session).inbox == old(session).inbox
            &&& final(session).download_buffer == old(session).download_buffer
        },
{
    if session.snapshot.state != MasterFileTransferState::Running {
        return;
    }
    match bytes_done { Some(v) => { session.snapshot.bytes_done = v; }, None => {} }
    match bytes_total { Some(v) => { session.snapshot.bytes_total = v; }, None => {} }
    match section { Some(v) => { session.snapshot.current_section = v; }, None => {} }
    match segment { Some(v) => { session.snapshot.current_segment = v; }, None => {} }
    session.snapshot.updated_at_ms = now_ms;
}

/// Two records that hold the same fields, byte contents compared by value.
pub open spec fn same_record(a: DecodedFileTransferRecord, b: DecodedFileTransferRecord) -> bool {
    match (a, b) {
        (DecodedFileTransferRecord::Segment { ioa, file_name, section, data },
         DecodedFileTransferRecord::Segment { ioa: i2, file_name: f2, section: s2, data: d2 }) =>
            ioa == i2 && file_name == f2 && section == s2 && data@ == d2@,
        (DecodedFileTransferRecord::Raw { bytes }, DecodedFileTransferRecord::Raw { bytes: b2 }) => bytes@ == b2@,
        _ => a == b,
    }
}

fn clone_record(record: &DecodedFileTransferRecord) -> (r: DecodedFileTransferRecord)
    ensures
        same_record(r, *record),
        record_target(r) == record_target(*record),
        forall|m: MasterFileTransferMode, st: MasterFileTransferStage| spec_stage_accepts(m, st, r) == spec_stage_accepts(m, st, *record),
        is_last_directory_record(r) == is_last_directory_record(*record),
{
    match record {
        DecodedFileTransferRecord::FileReady { ioa, file_name, length, qualifier } =>
            DecodedFileTransferRecord::FileReady { ioa: *ioa, file_name: *file_name, length: *length, qualifier: *qualifier },
        DecodedFileTransferRecord::SectionReady { ioa, file_name, section, length, qualifier } =>
            DecodedFileTransferRecord::SectionReady { ioa: *ioa, file_name: *file_name, section: *section, length: *length, qualifier: *qualifier },
        DecodedFileTransferRecord::SelectCall { ioa, file_name, section, qualifier } =>
            DecodedFileTransferRecord::SelectCall { ioa: *ioa, file_name: *file_name, section: *section, qualifier: *qualifier },
        DecodedFileTransferRecord::LastSection { ioa, file_name, last_section_number, qualifier } =>
            DecodedFileTransferRecord::LastSection { ioa: *ioa, file_name: *file_name, last_section_number: *last_section_number, qualifier: *qualifier },
        DecodedFileTransferRecord::AckSection { ioa, file_name, section, qualifier } =>
            DecodedFileTransferRecord::AckSection { ioa: *ioa, file_name: *file_name, section: *section, qualifier: *qualifier },
        DecodedFileTransferRecord::Segment { ioa, file_name, section, data } =>
            DecodedFileTransferRecord::Segment { ioa: *ioa, file_name: *file_name, section: *section, data: clone_bytes(data) },
        DecodedFileTransferRecord::Directory { ioa, file_name, length, status_raw, is_file, is_last_file_of_directory, timestamp } =>
            DecodedFileTransferRecord::Directory {
                ioa: *ioa, file_name: *file_name, length: *length, status_raw: *status_raw, is_file: *is_file,
                is_last_file_of_directory: *is_last_file_of_directory, timestamp: *timestamp,
            },
        DecodedFileTransferRecord::QueryLog { ioa, file_name } => DecodedFileTransferRecord::QueryLog { ioa: *ioa, file_name: *file_name },
        DecodedFileTransferRecord::Raw { bytes } => DecodedFileTransferRecord::Raw { bytes: clone_bytes(bytes) },
    }
}

fn clone_bytes(v: &Vec<u8>) -> (r: Vec<u8>)
    ensures
        r@ == v@,
{
    let mut out: Vec<u8> = Vec::new();
    append_bytes(&mut out, v.as_slice());
    assert(out@ =~= v@);
    out
}

/// How a received file transfer ASDU was taken in.
#[derive(Clone, Copy, Debug, PartialEq, Eq, Structural)]
pub enum IncomingOutcome {
    /// Not a file transfer ASDU of this running session.
    Ignored,
    /// Records were taken in; `listing_updated` when directory entries were added.
    Accepted { listing_updated: bool },
    /// A limit was exceeded and the session failed.
    Overflow,
}

/// The listing entry a directory record becomes, where it names something.
pub open spec fn directory_entry_of(record: DecodedFileTransferRecord) -> Option<MasterRemoteDirectoryEntry> {
    match record {
        DecodedFileTransferRecord::Directory { ioa, file_name, length, status_raw, is_file, is_last_file_of_directory, timestamp } =>
            if spec_should_store_directory_entry(file_name, length, is_file) {
                Some(MasterRemoteDirectoryEntry {
                    ioa,
                    nof: file_name,
                    length,
                    status_raw,
                    is_file,
                    is_last: is_last_file_of_directory,
                    timestamp,
                })
            } else {
                None
            },
        _ => None,
    }
}

/// Taking in `records`, in order, while the inbox holds `inbox_len` records
/// and the listing `entries_len` entries: the records put in the inbox, the
/// entries added to the listing, and the failure that stopped the session.
/// Records that do not belong to the session are skipped; a full inbox fails
/// the session before the record is kept, a full listing after it.
pub open spec fn spec_intake(
    snapshot: MasterFileTransferSession,
    stage: MasterFileTransferStage,
    common_address: u16,
    inbox_len: nat,
    entries_len: nat,
    records: Seq<DecodedFileTransferRecord>,
) -> (Seq<DecodedFileTransferRecord>, Seq<MasterRemoteDirectoryEntry>, Option<Seq<char>>)
    decreases records.len(),
{
    if records.len() == 0 {
        (Seq::empty(), Seq::empty(), None)
    } else {
        let record = records[0];
        let rest = records.drop_first();
        if !spec_record_matches_session(snapshot, stage, common_address, record) {
            spec_intake(snapshot, stage, common_address, inbox_len, entries_len, rest)
        } else if inbox_len >= FILE_TRANSFER_MAX_INBOX_RECORDS {
            (Seq::empty(), Seq::empty(), Some("文件传输 inbox 超过记录上限"@))
        } else {
            match directory_entry_of(record) {
                Some(entry) => if entries_len >= FILE_TRANSFER_MAX_DIRECTORY_ENTRIES {
                    (seq![record], Seq::empty(), Some("远端目录条目超过上限"@))
                } else {
                    let t = spec_intake(snapshot, stage, common_address, inbox_len + 1, entries_len + 1, rest);
                    (seq![record] + t.0, seq![entry] + t.1, t.2)
                },
                None => {
                    let t = spec_intake(snapshot, stage, common_address, inbox_len + 1, entries_len, rest);
                    (seq![record] + t.0, t.1, t.2)
                },
            }
        }
    }
}

/// Whether one of the first `n` records belongs to the session.
pub open spec fn spec_any_match_before(
    snapshot: MasterFileTransferSession,
    stage: MasterFileTransferStage,
    common_address: u16,
    records: Seq<DecodedFileTransferRecord>,
    n: int,
) -> bool {
    exists|j: int| 0 <= j < n && #[trigger] spec_record_matches_session(snapshot, stage, common_address, records[j])
}

/// The fields of a session view that taking in records leaves as they were.
pub open spec fn same_session_identity(a: MasterFileTransferSession, b: MasterFileTransferSession) -> bool {
    &&& a.session_id == b.session_id
    &&& a.station_id == b.station_id
    &&& a.connection_id == b.connection_id
    &&& a.slave_id == b.slave_id
    &&& a.common_address == b.common_address
    &&& a.mode == b.mode
    &&& a.ioa == b.ioa
    &&& a.nof == b.nof
    &&& a.local_path == b.local_path
    &&& a.bytes_total == b.bytes_total
    &&& a.bytes_done == b.bytes_done
    &&& a.current_section == b.current_section
    &&& a.current_segment == b.current_segment
    &&& a.created_at_ms == b.created_at_ms
}

proof fn lemma_subrange_step<A>(s: Seq<A>, i: int)
    requires
        0 <= i < s.len(),
    ensures
        s.subrange(i, s.len() as int).len() > 0,
        s.subrange(i, s.len() as int)[0] == s[i],
        s.subrange(i, s.len() as int).drop_first() == s.subrange(i + 1, s.len() as int),
{
    assert(s.subrange(i, s.len() as int).drop_first() =~= s.subrange(i + 1, s.len() as int));
}

/// Takes in a received file transfer ASDU: each record of the running session
/// goes to the inbox, directory records that name something also to the
/// listing. Exceeding the inbox or listing limit fails the session.
/// Returns whether anything of the ASDU was taken in.
pub fn handle_file_transfer_incoming(session: &mut MasterFileTransferSessionRuntime, decoded_asdu: &DecodedAsdu, now_ms: i64) -> (r: bool)
    ensures
        !(decoded_asdu.body is FileTransfers) || old(session).snapshot.state != MasterFileTransferState::Running
            || decoded_asdu.cause % 256 != COT_FILE_TRANSFER as int ==> !r && *final(session) == *old(session),
        match decoded_asdu.body {
            DecodedAsduBody::FileTransfers { items } =>
            old(session).snapshot.state == MasterFileTransferState::Running
            && decoded_asdu.cause % 256 == COT_FILE_TRANSFER as int ==> {
            let t = spec_intake(old(session).snapshot, old(session).stage, decoded_asdu.common_address,
                old(session).inbox@.len(), old(session).snapshot.directory_entries@.len(), items@);
            &&& r == spec_any_match_before(old(session).snapshot, old(session).stage, decoded_asdu.common_address, items@, items@.len() as int)
            &&& final(session).snapshot.directory_entries@ == old(session).snapshot.directory_entries@ + t.1
            &&& final(session).snapshot.updated_at_ms == (if r { now_ms } else { old(session).snapshot.updated_at_ms })
            &&& same_session_identity(final(session).snapshot, old(session).snapshot)
            &&& final(session).cancel_requested == old(session).cancel_requested
            &&& (t.2 is None ==> {
                &&& final(session).snapshot.state == MasterFileTransferState::Running
                &&& final(session).snapshot.failure_reason == old(session).snapshot.failure_reason
                &&& final(session).stage == old(session).stage
                &&& final(session).stage_epoch == old(session).stage_epoch
                &&& final(session).inbox@.len() == old(session).inbox@.len() + t.0.len()
                &&& final(session).inbox@.subrange(0, old(session).inbox@.len() as int) == old(session).inbox@
                &&& forall|k: int| 0 <= k < t.0.len() ==>
                    same_record((#[trigger] final(session).inbox@[old(session).inbox@.len() + k]).record, t.0[k])
                    && final(session).inbox@[old(session).inbox@.len() + k].stage == old(session).stage
                    && final(session).inbox@[old(session).inbox@.len() + k].stage_epoch == old(session).stage_epoch
            })
            &&& (t.2 matches Some(m) ==> {
                &&& final(session).snapshot.state == MasterFileTransferState::Failed
                &&& final(session).snapshot.failure_reason matches Some(reason) && reason@ == m
                &&& final(session).finished_after(*old(session))
            })
            },
            _ => true,
        },
        final(session).snapshot.state == old(session).snapshot.state
            || (old(session).snapshot.state == MasterFileTransferState::Running && final(session).snapshot.state == MasterFileTransferState::Failed),
        final(session).snapshot.state == MasterFileTransferState::Running ==> {
            &&& final(session).stage == old(session).stage
            &&& final(session).stage_epoch == old(session).stage_epoch
            &&& forall|k: int| 0 <= k < final(session).inbox@.len() && k >= old(session).inbox@.len() ==>
                (#[trigger] final(session).inbox@[k]).stage == old(session).stage
                && final(session).inbox@[k].stage_epoch == old(session).stage_epoch
                && spec_record_matches_session(old(session).snapshot, old(session).stage, decoded_asdu.common_address, final(session).inbox@[k].record)
        },
        old(session).inbox@.len() <= FILE_TRANSFER_MAX_INBOX_RECORDS && old(session).snapshot.state == MasterFileTransferState::Running
            ==> final(session).inbox@.len() <= FILE_TRANSFER_MAX_INBOX_RECORDS,
        final(session).download_buffer == old(session).download_buffer,
        final(session).snapshot.bytes_done == old(session).snapshot.bytes_done,
        final(session).snapshot.bytes_total == old(session).snapshot.bytes_total,
{
    let records = match &decoded_asdu.body {
        DecodedAsduBody::FileTransfers { items } => items,
        _ => { return false; },
    };
    if session.snapshot.state != MasterFileTransferState::Running || (decoded_asdu.cause % 256) as u8 != COT_FILE_TRANSFER {
        return false;
    }
    let ghost before = *session;
    let ghost ca = decoded_asdu.common_address;
    let ghost full = spec_intake(before.snapshot, before.stage, ca, before.inbox@.len(),
        before.snapshot.directory_entries@.len(), records@);
    let ghost mut taken: Seq<DecodedFileTransferRecord> = Seq::empty();
    assert(records@.subrange(0, records@.len() as int) =~= records@);
    let mut matched = false;
    let mut updated = false;
    let mut failed = false;
    let mut i: usize = 0;
    while i < records.len() && !failed
        invariant
            i <= records@.len(),
            decoded_asdu.body matches DecodedAsduBody::FileTransfers { items } && items@ == records@,
            ca == decoded_asdu.common_address,
            full == spec_intake(before.snapshot, before.stage, ca, before.inbox@.len(),
                before.snapshot.directory_entries@.len(), records@),
            before.snapshot.state == MasterFileTransferState::Running,
            updated ==> matched,
            !failed ==> matched == spec_any_match_before(before.snapshot, before.stage, ca, records@, i as int),
            failed ==> matched && spec_any_match_before(before.snapshot, before.stage, ca, records@, records@.len() as int),
            session.snapshot.directory_entries@.len() >= before.snapshot.directory_entries@.len(),
            session.snapshot.directory_entries@.subrange(0, before.snapshot.directory_entries@.len() as int)
                == before.snapshot.directory_entries@,
            session.snapshot.updated_at_ms == before.snapshot.updated_at_ms,
            same_session_identity(session.snapshot, before.snapshot),
            session.cancel_requested == before.cancel_requested,
            failed ==> {
                &&& session.snapshot.state == MasterFileTransferState::Failed
                &&& full.2 matches Some(m) && session.snapshot.failure_reason matches Some(reason) && reason@ == m
                &&& session.finished_after(before)
                &&& session.snapshot.directory_entries@ == before.snapshot.directory_entries@ + full.1
            },
            !failed ==> {
                let t = spec_intake(before.snapshot, before.stage, ca, session.inbox@.len(),
                    session.snapshot.directory_entries@.len(), records@.subrange(i as int, records@.len() as int));
                &&& full == (taken + t.0, session.snapshot.directory_entries@.subrange(
                        before.snapshot.directory_entries@.len() as int, session.snapshot.directory_entries@.len() as int) + t.1, t.2)
                &&& session.snapshot.state == MasterFileTransferState::Running
                &&& session.snapshot.failure_reason == before.snapshot.failure_reason
                &&& session.stage == before.stage
                &&& session.stage_epoch == before.stage_epoch
                &&& session.inbox@.len() == before.inbox@.len() + taken.len()
                &&& session.inbox@.subrange(0, before.inbox@.len() as int) == before.inbox@
                &&& (before.inbox@.len() <= FILE_TRANSFER_MAX_INBOX_RECORDS ==> session.inbox@.len() <= FILE_TRANSFER_MAX_INBOX_RECORDS)
                &&& forall|k: int| 0 <= k < taken.len() ==>
                    same_record((#[trigger] session.inbox@[before.inbox@.len() + k]).record, taken[k])
                    && session.inbox@[before.inbox@.len() + k].stage == before.stage
                    && session.inbox@[before.inbox@.len() + k].stage_epoch == before.stage_epoch
                    && spec_record_matches_session(before.snapshot, before.stage, ca, taken[k])
                    && spec_record_matches_session(before.snapshot, before.stage, ca, session.inbox@[before.inbox@.len() + k].record)
            },
            failed ==> session.inbox@.len() == 0,
            session.download_buffer == before.download_buffer,
        decreases records@.len() - i + (if failed { 0int } else { 1int }),
    {
        let record = &records[i];
        proof { lemma_subrange_step(records@, i as int); }
        let ghost rest = records@.subrange(i + 1, records@.len() as int);
        if !file_transfer_record_matches_session(&session.snapshot, session.stage, decoded_asdu.common_address, record) {
            assert(!spec_record_matches_session(before.snapshot, before.stage, ca, records@[i as int]));
            assert forall|j: int| 0 <= j < i + 1 && #[trigger] spec_record_matches_session(before.snapshot, before.stage, ca, records@[j])
                implies j < i by {}
            i = i + 1;
            continue;
        }
        assert(spec_record_matches_session(before.snapshot, before.stage, ca, records@[i as int]));
        matched = true;
        if session.inbox.len() >= FILE_TRANSFER_MAX_INBOX_RECORDS {
            session.snapshot.state = MasterFileTransferState::Failed;
            session.snapshot.failure_reason = Some(String::from_str("文件传输 inbox 超过记录上限"));
            finish_file_transfer_runtime(session);
            failed = true;
            proof {
                assert(taken + Seq::<DecodedFileTransferRecord>::empty() =~= taken);
                assert(session.snapshot.directory_entries@ =~= before.snapshot.directory_entries@ + full.1);
            }
        } else {
            let ghost inbox_before = session.inbox@;
            let ghost entries_before = session.snapshot.directory_entries@;
            let ghost taken_before = taken;
            let copy = clone_record(record);
            session.inbox.push(MasterFileTransferInboxRecord { stage: session.stage, stage_epoch: session.stage_epoch, record: copy });
            proof { taken = taken.push(records@[i as int]); }
            assert(session.inbox@.subrange(0, before.inbox@.len() as int) =~= inbox_before.subrange(0, before.inbox@.len() as int));
            assert forall|k: int| 0 <= k < taken.len() implies
                same_record((#[trigger] session.inbox@[before.inbox@.len() + k]).record, taken[k])
                && session.inbox@[before.inbox@.len() + k].stage == before.stage
                && session.inbox@[before.inbox@.len() + k].stage_epoch == before.stage_epoch
                && spec_record_matches_session(before.snapshot, before.stage, ca, taken[k])
                && spec_record_matches_session(before.snapshot, before.stage, ca, session.inbox@[before.inbox@.len() + k].record) by {
                if k < taken_before.len() {
                    assert(session.inbox@[before.inbox@.len() + k] == inbox_before[before.inbox@.len() + k]);
                    assert(taken[k] == taken_before[k]);
                }
            }
            let mut dir_failed = false;
            match record {
                DecodedFileTransferRecord::Directory { ioa, file_name, length, status_raw, is_file, is_last_file_of_directory, timestamp } => {
                    if should_store_directory_entry(*file_name, *length, *is_file) {
                        if session.snapshot.directory_entries.len() >= FILE_TRANSFER_MAX_DIRECTORY_ENTRIES {
                            session.snapshot.state = MasterFileTransferState::Failed;
                            session.snapshot.failure_reason = Some(String::from_str("远端目录条目超过上限"));
                            finish_file_transfer_runtime(session);
                            failed = true;
                            dir_failed = true;
                        } else {
                            session.snapshot.directory_entries.push(MasterRemoteDirectoryEntry {
                                ioa: *ioa,
                                nof: *file_name,
                                length: *length,
                                status_raw: *status_raw,
                                is_file: *is_file,
                                is_last: *is_last_file_of_directory,
                                timestamp: *timestamp,
                            });
                            updated = true;
                        }
                    }
                },
                _ => {},
            }
            proof {
                let de0 = before.snapshot.directory_entries@.len() as int;
                let t_new = spec_intake(before.snapshot, before.stage, ca, session.inbox@.len(),
                    session.snapshot.directory_entries@.len(), rest);
                assert(session.snapshot.directory_entries@.subrange(0, de0)
                    =~= entries_before.subrange(0, de0));
                if dir_failed {
                    assert(entries_before.subrange(de0, entries_before.len() as int) + Seq::<MasterRemoteDirectoryEntry>::empty()
                        =~= entries_before.subrange(de0, entries_before.len() as int));
                    assert(entries_before =~= before.snapshot.directory_entries@ + entries_before.subrange(de0, entries_before.len() as int));
                } else {
                    assert(taken_before + (seq![records@[i as int]] + t_new.0) =~= taken + t_new.0);
                    match directory_entry_of(records@[i as int]) {
                        Some(e) => {
                            assert(session.snapshot.directory_entries@ =~= entries_before.push(e));
                            assert(entries_before.subrange(de0, entries_before.len() as int) + (seq![e] + t_new.1)
                                =~= session.snapshot.directory_entries@.subrange(de0, session.snapshot.directory_entries@.len() as int) + t_new.1);
                        },
                        None => {
                            assert(session.snapshot.directory_entries@ =~= entries_before);
                        },
                    }
                }
            }
            i = i + 1;
        }
    }
    if matched {
        session.snapshot.updated_at_ms = now_ms;
    }
    proof {
        if !failed {
            assert(records@.subrange(i as int, records@.len() as int) =~= Seq::<DecodedFileTransferRecord>::empty());
            assert(taken + Seq::<DecodedFileTransferRecord>::empty() =~= taken);
            let de0 = before.snapshot.directory_entries@.len() as int;
            let des = session.snapshot.directory_entries@;
            assert(des.subrange(de0, des.len() as int) + Seq::<MasterRemoteDirectoryEntry>::empty() =~= des.subrange(de0, des.len() as int));
            assert(des =~= before.snapshot.directory_entries@ + des.subrange(de0, des.len() as int));
            assert forall|k: int| 0 <= k < session.inbox@.len() && k >= before.inbox@.len() implies
                (#[trigger] session.inbox@[k]).stage == before.stage
                && session.inbox@[k].stage_epoch == before.stage_epoch
                && spec_record_matches_session(before.snapshot, before.stage, ca, session.inbox@[k].record) by {
                let j = k - before.inbox@.len();
                assert(session.inbox@[before.inbox@.len() + j] == session.inbox@[k]);
            }
        }
    }
    updated || matched
}

/// The record a flow waits for.
#[derive(Clone, Copy, Debug, PartialEq, Eq, Structural)]
pub enum RecordWanted {
    /// File ready, or a section acknowledgement, for the file.
    FileReadyOrAck { file_name: u16 },
    /// Section ready, or a section acknowledgement, for the file's section.
    SectionReadyOrAck { file_name: u16, section: u8 },
    /// A section acknowledgement for the file's section.
    SectionAck { file_name: u16, section: u8 },
    /// A segment or the last-section record of the file's section.
    SegmentOrLast { file_name: u16, section: u8 },
}

pub open spec fn spec_wanted(w: RecordWanted, record: DecodedFileTransferRecord) -> bool {
    match w {
        RecordWanted::FileReadyOrAck { file_name } => match record {
            DecodedFileTransferRecord::FileReady { file_name: f, .. } => f == file_name,
            DecodedFileTransferRecord::AckSection { file_name: f, .. } => f == file_name,
            _ => false,
        },
        RecordWanted::SectionReadyOrAck { file_name, section } => match record {
            DecodedFileTransferRecord::SectionReady { file_name: f, section: s, .. } => f == file_name && s == section,
            DecodedFileTransferRecord::AckSection { file_name: f, section: s, .. } => f == file_name && s == section,
            _ => false,
        },
        RecordWanted::SectionAck { file_name, section } => match record {
            DecodedFileTransferRecord::AckSection { file_name: f, section: s, .. } => f == file_name && s == section,
            _ => false,
        },
        RecordWanted::SegmentOrLast { file_name, section } => match record {
            DecodedFileTransferRecord::Segment { file_name: f, section: s, .. } => f == file_name && s == section,
            DecodedFileTransferRecord::LastSection { file_name: f, last_section_number: s, .. } => f == file_name && s == section,
            _ => false,
        },
    }
}

fn wanted(w: RecordWanted, record: &DecodedFileTransferRecord) -> (r: bool)
    ensures
        r == spec_wanted(w, *record),
{
    match w {
        RecordWanted::FileReadyOrAck { file_name } => match record {
            DecodedFileTransferRecord::FileReady { file_name: f, .. } => *f == file_name,
            DecodedFileTransferRecord::AckSection { file_name: f, .. } => *f == file_name,
            _ => false,
        },
        RecordWanted::SectionReadyOrAck { file_name, section } => match record {
            DecodedFileTransferRecord::SectionReady { file_name: f, section: s, .. } => *f == file_name && *s == section,
            DecodedFileTransferRecord::AckSection { file_name: f, section: s, .. } => *f == file_name && *s == section,
            _ => false,
        },
        RecordWanted::SectionAck { file_name, section } => match record {
            DecodedFileTransferRecord::AckSection { file_name: f, section: s, .. } => *f == file_name && *s == section,
            _ => false,
        },
        RecordWanted::SegmentOrLast { file_name, section } => match record {
            DecodedFileTransferRecord::Segment { file_name: f, section: s, .. } => *f == file_name && *s == section,
            DecodedFileTransferRecord::LastSection { file_name: f, last_section_number: s, .. } => *f == file_name && *s == section,
            _ => false,
        },
    }
}

/// What one look at the session tells a waiting flow.
#[derive(Debug)]
pub enum WaitPoll {
    /// The awaited record, taken out of the inbox.
    Received(DecodedFileTransferRecord),
    /// The wait is over without the record.
    Stopped(String),
    /// Nothing yet: look again later, unless the deadline passed.
    NotYet,
}

/// Why a waiting flow stops, if it does: cancellation, failure, end or stage change.
pub open spec fn wait_stop_reason(session: MasterFileTransferSessionRuntime, expected_stage: MasterFileTransferStage) -> Option<Seq<char>> {
    if session.cancel_requested || session.snapshot.state == MasterFileTransferState::Cancelled {
        Some("用户取消"@)
    } else if session.snapshot.state == MasterFileTransferState::Failed {
        Some(match session.snapshot.failure_reason { Some(r) => r@, None => "文件传输失败"@ })
    } else if session.snapshot.state != MasterFileTransferState::Running {
        Some("文件传输会话已结束"@)
    } else if session.stage != expected_stage {
        Some("文件传输会话阶段已变化"@)
    } else {
        None
    }
}

fn wait_stop(session: &MasterFileTransferSessionRuntime, expected_stage: MasterFileTransferStage) -> (r: Option<String>)
    ensures
        match wait_stop_reason(*session, expected_stage) {
            Some(m) => r matches Some(s) && s@ == m,
            None => r is None,
        },
{
    if session.cancel_requested || session.snapshot.state == MasterFileTransferState::Cancelled {
        Some(String::from_str("用户取消"))
    } else if session.snapshot.state == MasterFileTransferState::Failed {
        match &session.snapshot.failure_reason {
            Some(reason) => Some(reason.clone()),
            None => Some(String::from_str("文件传输失败")),
        }
    } else if session.snapshot.state != MasterFileTransferState::Running {
        Some(String::from_str("文件传输会话已结束"))
    } else if session.stage != expected_stage {
        Some(String::from_str("文件传输会话阶段已变化"))
    } else {
        None
    }
}

pub open spec fn inbox_wanted(session: MasterFileTransferSessionRuntime, expected_stage: MasterFileTransferStage, w: RecordWanted)
    -> spec_fn(MasterFileTransferInboxRecord) -> bool {
    |item: MasterFileTransferInboxRecord| item.stage == expected_stage && item.stage_epoch == session.stage_epoch && spec_wanted(w, item.record)
}

/// One look at the session for the record a flow waits for in `expected_stage`:
/// the first inbox record of the stage's current epoch that is wanted is taken out.
pub fn poll_file_transfer_record(
    session: &mut MasterFileTransferSessionRuntime,
    expected_stage: MasterFileTransferStage,
    w: RecordWanted,
    now_ms: i64,
) -> (r: WaitPoll)
    ensures
        match wait_stop_reason(*old(session), expected_stage) {
            Some(m) => r matches WaitPoll::Stopped(s) && s@ == m && *final(session) == *old(session),
            None => match crate::seqs::first_match(old(session).inbox@, inbox_wanted(*old(session), expected_stage, w)) {
                None => r is NotYet && *final(session) == *old(session),
                Some(k) => {
                    &&& r matches WaitPoll::Received(rec) && rec == old(session).inbox@[k].record
                    &&& final(session).inbox@ == old(session).inbox@.remove(k)
                    &&& final(session).snapshot.updated_at_ms == now_ms
                    &&& final(session).snapshot.state == old(session).snapshot.state
                    &&& final(session).stage == old(session).stage
                    &&& final(session).stage_epoch == old(session).stage_epoch
                    &&& final(session).download_buffer == old(session).download_buffer
                    &&& final(session).snapshot.bytes_total == old(session).snapshot.bytes_total
                },
            },
        },
{
    match wait_stop(session, expected_stage) {
        Some(reason) => { return WaitPoll::Stopped(reason); },
        None => {},
    }
    let ghost p = inbox_wanted(*old(session), expected_stage, w);
    let epoch = session.stage_epoch;
    let mut i: usize = 0;
    while i < session.inbox.len()
        invariant
            *session == *old(session),
            wait_stop_reason(*old(session), expected_stage) is None,
            epoch == session.stage_epoch,
            p == inbox_wanted(*old(session), expected_stage, w),
            i <= session.inbox@.len(),
            forall|j: int| 0 <= j < i ==> !p(#[trigger] session.inbox@[j]),
        decreases session.inbox@.len() - i,
    {
        let hit = session.inbox[i].stage == expected_stage && session.inbox[i].stage_epoch == epoch
            && wanted(w, &session.inbox[i].record);
        assert(hit == p(session.inbox@[i as int]));
        if hit {
            proof { crate::seqs::lemma_first_match(old(session).inbox@, p, i as int); }
            let item = session.inbox.remove(i);
            session.snapshot.updated_at_ms = now_ms;
            return WaitPoll::Received(item.record);
        }
        i = i + 1;
    }
    proof { crate::seqs::lemma_first_match(old(session).inbox@, p, i as int); }
    WaitPoll::NotYet
}

/// A directory record that closes its listing.
pub open spec fn is_last_directory_record(record: DecodedFileTransferRecord) -> bool {
    match record {
        DecodedFileTransferRecord::Directory { is_last_file_of_directory, .. } => is_last_file_of_directory,
        _ => false,
    }
}

/// One look at a listing: the leading inbox records of the stage's epoch are
/// consumed; `Ok(true)` once one of them is the last entry of the listing.
pub fn poll_directory_listing(session: &mut MasterFileTransferSessionRuntime, expected_stage: MasterFileTransferStage, now_ms: i64) -> (r: Result<bool, String>)
    ensures
        match wait_stop_reason(*old(session), expected_stage) {
            Some(m) => r matches Err(s) && s@ == m && *final(session) == *old(session),
            None => r is Ok && {
                let n = (old(session).inbox@.len() - final(session).inbox@.len()) as int;
                &&& 0 <= n <= old(session).inbox@.len()
                &&& final(session).inbox@ == old(session).inbox@.subrange(n, old(session).inbox@.len() as int)
                &&& forall|k: int| 0 <= k < n ==> (#[trigger] old(session).inbox@[k]).stage == expected_stage
                    && old(session).inbox@[k].stage_epoch == old(session).stage_epoch
                &&& (n < old(session).inbox@.len() ==> !(old(session).inbox@[n].stage == expected_stage
                    && old(session).inbox@[n].stage_epoch == old(session).stage_epoch))
                &&& (r matches Ok(last) && last == exists|k: int| 0 <= k < n
                    && is_last_directory_record((#[trigger] old(session).inbox@[k]).record))
                &&& final(session).snapshot.updated_at_ms == (if r == Ok::<bool, String>(true) { now_ms } else { old(session).snapshot.updated_at_ms })
                &&& final(session).snapshot.state == old(session).snapshot.state
                &&& final(session).stage == old(session).stage
                &&& final(session).stage_epoch == old(session).stage_epoch
            },
        },
{
    match wait_stop(session, expected_stage) {
        Some(reason) => { return Err(reason); },
        None => {},
    }
    let epoch = session.stage_epoch;
    let ghost original = session.inbox@;
    let total = session.inbox.len();
    let mut n: usize = 0;
    let mut got_last = false;
    while session.inbox.len() > 0 && session.inbox[0].stage == expected_stage && session.inbox[0].stage_epoch == epoch
        invariant
            n <= original.len(),
            original.len() == total,
            session.inbox@ == original.subrange(n as int, original.len() as int),
            epoch == old(session).stage_epoch,
            session.snapshot == old(session).snapshot,
            session.stage == old(session).stage,
            session.stage_epoch == old(session).stage_epoch,
            original == old(session).inbox@,
            forall|k: int| 0 <= k < n ==> (#[trigger] original[k]).stage == expected_stage && original[k].stage_epoch == epoch,
            got_last == exists|k: int| 0 <= k < n && is_last_directory_record((#[trigger] original[k]).record),
        decreases session.inbox@.len(),
    {
        assert(n < original.len());
        let item = session.inbox.remove(0);
        assert(item == original[n as int]);
        let last = match &item.record {
            DecodedFileTransferRecord::Directory { is_last_file_of_directory, .. } => *is_last_file_of_directory,
            _ => false,
        };
        proof {
            assert forall|k: int| 0 <= k < n + 1 && is_last_directory_record((#[trigger] original[k]).record)
                implies got_last || last by {
                if k < n {}
            }
            if last { assert(is_last_directory_record(original[n as int].record)); }
        }
        got_last = got_last || last;
        assert(session.inbox@ =~= original.subrange(n + 1, original.len() as int));
        n = n + 1;
    }
    if got_last {
        session.snapshot.updated_at_ms = now_ms;
    }
    Ok(got_last)
}

/// Appends a received segment to a download: only while receiving the section,
/// within the announced total, and while the segment number fits in one octet.
/// Returns the bytes received so far and the segment number.
pub fn append_download_chunk(session: &mut MasterFileTransferSessionRuntime, data: &[u8], now_ms: i64) -> (r: Result<(u64, u32), String>)
    ensures
        match r {
            Err(_) => *final(session) == *old(session),
            Ok((done, seg)) => {
                &&& old(session).snapshot.state == MasterFileTransferState::Running
                &&& old(session).stage == MasterFileTransferStage::ReceivingDownloadSection
                &&& final(session).download_buffer@ == old(session).download_buffer@ + data@
                &&& final(session).download_buffer@.len() <= old(session).snapshot.bytes_total
                &&& done == final(session).download_buffer@.len()
                &&& seg == old(session).snapshot.current_segment + 1
                &&& seg <= 255
                &&& final(session).snapshot.bytes_done == done
                &&& final(session).snapshot.current_segment == seg
                &&& final(session).snapshot.updated_at_ms == now_ms
                &&& final(session).snapshot.state == old(session).snapshot.state
                &&& final(session).snapshot.bytes_total == old(session).snapshot.bytes_total
                &&& final(session).stage == old(session).stage
                &&& final(session).stage_epoch == old(session).stage_epoch
                &&& final(session).inbox == old(session).inbox
            },
        },
        r is Err <==> (old(session).snapshot.state != MasterFileTransferState::Running
            || old(session).stage != MasterFileTransferStage::ReceivingDownloadSection
            || old(session).download_buffer@.len() + data@.len() > old(session).snapshot.bytes_total
            || old(session).snapshot.current_segment >= 255),
{
    if session.snapshot.state != MasterFileTransferState::Running || session.stage != MasterFileTransferStage::ReceivingDownloadSection {
        return Err(String::from_str("文件传输会话不在下载数据阶段"));
    }
    let current = session.download_buffer.len();
    if data.len() as u64 > session.snapshot.bytes_total || current as u64 > session.snapshot.bytes_total - data.len() as u64 {
        let next: u64 = if (current as u128 + data.len() as u128) > u64::MAX as u128 { u64::MAX } else { current as u64 + data.len() as u64 };
        let head = text_with_number("下载数据超过配额: expected=", session.snapshot.bytes_total, " next=");
        let tail = u64_decimal(next);
        return Err(join2(head.as_str(), tail.as_str()));
    }
    if session.snapshot.current_segment >= 255 {
        return Err(String::from_str("下载段号超过单节可表达范围"));
    }
    let next_segment = session.snapshot.current_segment + 1;
    append_bytes(&mut session.download_buffer, data);
    session.snapshot.bytes_done = session.download_buffer.len() as u64;
    session.snapshot.current_segment = next_segment;
    session.snapshot.updated_at_ms = now_ms;
    Ok((session.snapshot.bytes_done, next_segment))
}

/// The downloaded bytes, the session id and the announced total, once the download is finalizing.
pub fn snapshot_download_result(session: &MasterFileTransferSessionRuntime) -> (r: Result<(Vec<u8>, String, u64), String>)
    ensures
        (session.snapshot.state != MasterFileTransferState::Running || session.stage != MasterFileTransferStage::Finalizing)
            <==> r is Err,
        r matches Ok((bytes, id, total)) ==> bytes@ == session.download_buffer@ && id == session.snapshot.session_id
            && total == session.snapshot.bytes_total,
        r matches Err(m) ==> m@ == "文件传输会话不在下载收尾阶段"@,
{
    if session.snapshot.state != MasterFileTransferState::Running || session.stage != MasterFileTransferStage::Finalizing {
        return Err(String::from_str("文件传输会话不在下载收尾阶段"));
    }
    Ok((clone_bytes(&session.download_buffer), session.snapshot.session_id.clone(), session.snapshot.bytes_total))
}

/// Message of a download whose length differs from the announced one.
pub open spec fn size_mismatch_message(expected: u64, actual: usize) -> Seq<char> {
    "下载文件长度不匹配: expected="@ + decimal(expected as nat) + " bytes, got="@ + decimal(actual as nat) + " bytes"@
}

/// Checks that a download has the announced length.
pub fn validate_downloaded_file_size(expected_length: u64, actual_length: usize) -> (r: Result<(), String>)
    ensures
        r is Ok <==> expected_length == actual_length,
        r matches Err(m) ==> m@ == size_mismatch_message(expected_length, actual_length),
{
    if expected_length == actual_length as u64 {
        return Ok(());
    }
    let head = text_with_number("下载文件长度不匹配: expected=", expected_length, " bytes, got=");
    let tail = text_with_number("", actual_length as u64, " bytes");
    proof { reveal_strlit(""); }
    Err(join2(head.as_str(), tail.as_str()))
}

/// What the peer's negative acknowledgement qualifier means.
pub open spec fn ack_detail(qualifier: u8) -> Seq<char> {
    if qualifier == 0x02 { "从站返回否定确认，文件不可用或长度异常"@ }
    else if qualifier == 0x08 { "从站返回否定确认，节请求无效或会话状态异常"@ }
    else { "从站返回未知确认"@ }
}

pub open spec fn ack_error_message(context: Seq<char>, qualifier: u8) -> Seq<char> {
    context + "失败: "@ + ack_detail(qualifier) + " (AFQ=0x"@ + hex2(qualifier) + ")"@
}

/// The message of a step the peer refused with acknowledgement qualifier `qualifier`.
pub fn format_file_transfer_ack_error(context: &str, qualifier: u8) -> (r: String)
    ensures
        r@ == ack_error_message(context@, qualifier),
{
    let detail = if qualifier == 0x02 {
        "从站返回否定确认，文件不可用或长度异常"
    } else if qualifier == 0x08 {
        "从站返回否定确认，节请求无效或会话状态异常"
    } else {
        "从站返回未知确认"
    };
    let head = join3(context, "失败: ", detail);
    let code = u8_hex2(qualifier);
    let tail = join3(" (AFQ=0x", code.as_str(), ")");
    join2(head.as_str(), tail.as_str())
}

/// Why a file transfer frame cannot go out on the connection now, if it
/// cannot: no client or connection, no protocol context, or a data transfer
/// that has not started.
pub open spec fn transfer_send_refusal(has_client: bool, has_protocol: bool, data_transfer: Option<DataTransferState>) -> Option<Seq<char>> {
    if !has_client {
        Some("连接不存在"@)
    } else if !has_protocol {
        Some("协议上下文不存在"@)
    } else {
        match data_transfer {
            None => Some("连接不存在"@),
            Some(d) => if d != DataTransferState::Started { Some("业务链路未启动(STARTDT)"@) } else { None },
        }
    }
}

/// Checks that a file transfer frame can go out: whether the connection has a
/// client and a protocol context, and its data transfer state if it is known.
pub fn check_transfer_send_ready(has_client: bool, has_protocol: bool, data_transfer: Option<DataTransferState>) -> (r: Result<(), String>)
    ensures
        match transfer_send_refusal(has_client, has_protocol, data_transfer) {
            None => r is Ok,
            Some(m) => r matches Err(e) && e@ == m,
        },
{
    if !has_client {
        Err(String::from_str("连接不存在"))
    } else if !has_protocol {
        Err(String::from_str("协议上下文不存在"))
    } else {
        match data_transfer {
            None => Err(String::from_str("连接不存在")),
            Some(d) => if d != DataTransferState::Started { Err(String::from_str("业务链路未启动(STARTDT)")) } else { Ok(()) },
        }
    }
}

/// The log text of a file transfer I-frame that went out.
pub fn transfer_iframe_text(type_id: u8, cause: u16, common_address: u16) -> (r: String)
    ensures
        r@ == "文件传输发送 I 帧 type_id="@ + decimal(type_id as nat) + " cot="@ + decimal(cause as nat) + " ca="@
            + decimal(common_address as nat),
{
    let a = text_with_number("文件传输发送 I 帧 type_id=", type_id as u64, " cot=");
    let b = text_with_number("", cause as u64, " ca=");
    let c = text_with_number("", common_address as u64, "");
    proof { reveal_strlit(""); }
    join3(a.as_str(), b.as_str(), c.as_str())
}

/// Reads the length announced by a file-ready record, or the refusal an acknowledgement carries.
pub fn file_ready_result(record: &DecodedFileTransferRecord) -> (r: Result<u32, String>)
    ensures
        match *record {
            DecodedFileTransferRecord::FileReady { length, .. } => r == Ok::<u32, String>(length),
            DecodedFileTransferRecord::AckSection { qualifier, .. } => r matches Err(m) && m@ == ack_error_message("下载文件准备"@, qualifier),
            _ => r matches Err(m) && m@ == "文件传输响应类型不符"@,
        },
{
    match record {
        DecodedFileTransferRecord::FileReady { length, .. } => Ok(*length),
        DecodedFileTransferRecord::AckSection { qualifier, .. } => Err(format_file_transfer_ack_error("下载文件准备", *qualifier)),
        _ => Err(String::from_str("文件传输响应类型不符")),
    }
}

/// Reads the length announced by a section-ready record, or the refusal an acknowledgement carries.
pub fn section_ready_result(record: &DecodedFileTransferRecord) -> (r: Result<u32, String>)
    ensures
        match *record {
            DecodedFileTransferRecord::SectionReady { length, .. } => r == Ok::<u32, String>(length),
            DecodedFileTransferRecord::AckSection { qualifier, .. } => r matches Err(m) && m@ == ack_error_message("请求文件节"@, qualifier),
            _ => r matches Err(m) && m@ == "文件传输响应类型不符"@,
        },
{
    match record {
        DecodedFileTransferRecord::SectionReady { length, .. } => Ok(*length),
        DecodedFileTransferRecord::AckSection { qualifier, .. } => Err(format_file_transfer_ack_error("请求文件节", *qualifier)),
        _ => Err(String::from_str("文件传输响应类型不符")),
    }
}

/// Accepts an acknowledgement whose qualifier has a bit of `success_mask`; otherwise reports the refusal.
pub fn ack_result(record: &DecodedFileTransferRecord, success_mask: u8, context: &str) -> (r: Result<(), String>)
    ensures
        match *record {
            DecodedFileTransferRecord::AckSection { qualifier, .. } =>
                if qualifier & success_mask != 0 { r is Ok } else { r matches Err(m) && m@ == ack_error_message(context@, qualifier) },
            _ => r matches Err(m) && m@ == "文件传输响应类型不符"@,
        },
{
    match record {
        DecodedFileTransferRecord::AckSection { qualifier, .. } => {
            if *qualifier & success_mask != 0 {
                Ok(())
            } else {
                Err(format_file_transfer_ack_error(context, *qualifier))
            }
        },
        _ => Err(String::from_str("文件传输响应类型不符")),
    }
}

/// A section whose length differs from the announced file length (when one was announced) is refused.
pub fn check_download_section_length(expected_length: u32, section_length: u32) -> (r: Result<(), String>)
    ensures
        r is Err <==> (expected_length > 0 && section_length != expected_length),
        r matches Err(m) ==> m@ == "下载节长度与文件长度不一致: file_ready="@ + decimal(expected_length as nat)
            + " bytes, section_ready="@ + decimal(section_length as nat) + " bytes"@,
{
    if expected_length > 0 && section_length != expected_length {
        let head = text_with_number("下载节长度与文件长度不一致: file_ready=", expected_length as u64, " bytes, section_ready=");
        let tail = text_with_number("", section_length as u64, " bytes");
        proof { reveal_strlit(""); }
        return Err(join2(head.as_str(), tail.as_str()));
    }
    Ok(())
}

/// End of the `k`-th piece of at most `max` bytes of an `n`-byte file.
pub open spec fn piece_end(k: int, max: int, n: int) -> int {
    if (k + 1) * max < n { (k + 1) * max } else { n }
}

proof fn lemma_piece_step(k: int, max: int, n: int)
    requires
        max > 0,
        k >= 0,
        k * max < n,
    ensures
        (k + 1) * max == k * max + max,
        piece_end(k, max, n) - 1 >= k * max,
        (piece_end(k, max, n) - 1) / max == k,
{
    assert((k + 1) * max == k * max + max) by (nonlinear_arith);
    let e = piece_end(k, max, n);
    assert(k * max <= e - 1 < k * max + max);
    vstd::arithmetic::div_mod::lemma_fundamental_div_mod_converse(e - 1, max, k, e - 1 - k * max);
}

/// The segments an upload sends: consecutive pieces of at most `max` bytes.
pub fn upload_segments(file: &[u8], max: usize) -> (r: Vec<Vec<u8>>)
    requires
        max > 0,
    ensures
        r@.len() == (if file@.len() == 0 { 0 } else { (file@.len() - 1) / (max as int) + 1 }),
        forall|k: int| 0 <= k < r@.len() ==> #[trigger] r@[k]@ == file@.subrange(k * max, piece_end(k, max as int, file@.len() as int)),
{
    let mut out: Vec<Vec<u8>> = Vec::new();
    let n = file.len();
    let mut start: usize = 0;
    assert(out@.len() * max == 0) by (nonlinear_arith) requires out@.len() == 0;
    while start < n
        invariant
            n == file@.len(),
            max > 0,
            start <= n,
            start < n ==> start == out@.len() * max,
            out@.len() == (if start == 0 { 0 } else { (start - 1) / (max as int) + 1 }),
            forall|k: int| 0 <= k < out@.len() ==> #[trigger] out@[k]@ == file@.subrange(k * max, piece_end(k, max as int, n as int)),
        decreases n - start,
    {
        let ghost k = out@.len() as int;
        proof {
            if k == 0 { assert(k * max == 0) by (nonlinear_arith) requires k == 0; }
            lemma_piece_step(k, max as int, n as int);
        }
        let end: usize = if n - start > max { start + max } else { n };
        assert(end == piece_end(k, max as int, n as int));
        let mut piece: Vec<u8> = Vec::new();
        let mut i: usize = start;
        while i < end
            invariant
                start <= i <= end <= n,
                n == file@.len(),
                piece@ == file@.subrange(start as int, i as int),
            decreases end - i,
        {
            piece.push(file[i]);
            assert(piece@ =~= file@.subrange(start as int, i + 1));
            i = i + 1;
        }
        out.push(piece);
        start = end;
        proof {
            if start < n {
                assert(start == (k + 1) * max);
            }
        }
    }
    out
}

/// The progress an upload shows after `segment_no` segments of at most `max` bytes of a `total`-byte file.
pub fn upload_progress(segment_no: u32, max: usize, total: usize) -> (r: u64)
    ensures
        r == (if segment_no as int * max as int > total as int { total as int } else { segment_no as int * max as int }),
{
    proof {
        assert(segment_no as int * max as int <= 0xFFFF_FFFFint * 0xFFFF_FFFF_FFFF_FFFFint) by (nonlinear_arith)
            requires segment_no <= 0xFFFF_FFFFint, max <= 0xFFFF_FFFF_FFFF_FFFFint, segment_no >= 0, max >= 0;
    }
    let product: u128 = segment_no as u128 * max as u128;
    if product > total as u128 { total as u64 } else { product as u64 }
}

/// The last segment number as the last-section record carries it.
pub fn last_segment_number(segment_no: u32) -> (r: Result<u8, String>)
    ensures
        r is Ok <==> segment_no <= 255,
        r matches Ok(v) ==> v == segment_no,
        r matches Err(m) ==> m@ == "单节段号超过 255"@,
{
    if segment_no <= 255 {
        Ok(segment_no as u8)
    } else {
        Err(String::from_str("单节段号超过 255"))
    }
}

/// A file transfer the user asks the master to run.
#[derive(Clone, Debug)]
pub struct MasterFileTransferRequest {
    pub connection_id: String,
    pub slave_id: i64,
    pub common_address: u16,
    pub mode: MasterFileTransferMode,
    pub ioa: u32,
    pub nof: Option<u16>,
    pub local_path: Option<String>,
    pub query_range_start_time: [u8; 7],
    pub query_range_end_time: [u8; 7],
    pub max_asdu_bytes: u16,
}

/// A time tag that names an existing instant: not marked invalid, with an existing date and time of day.
pub open spec fn cp56_instant(raw: Seq<u8>) -> Option<Cp56Time> {
    let t = cp56_fields(raw);
    if !t.invalid && cp56_resolvable(t) { Some(t) } else { None }
}

/// Reads a time tag that names an existing instant.
pub fn decode_cp56_instant(raw: &[u8; 7]) -> (r: Option<Cp56Time>)
    ensures
        r == cp56_instant(raw@),
{
    let t = parse_cp56_time2a(raw);
    if !t.invalid && cp56_is_resolvable(t) { Some(t) } else { None }
}

/// Whether instant `a` lies after instant `b` (both existing, in UTC).
pub open spec fn cp56_later(a: Cp56Time, b: Cp56Time) -> bool {
    if a.year != b.year { a.year > b.year }
    else if a.month != b.month { a.month > b.month }
    else if a.day != b.day { a.day > b.day }
    else if a.hours != b.hours { a.hours > b.hours }
    else if a.minutes != b.minutes { a.minutes > b.minutes }
    else { a.milliseconds > b.milliseconds }
}

fn cp56_is_later(a: &Cp56Time, b: &Cp56Time) -> (r: bool)
    ensures
        r == cp56_later(*a, *b),
{
    if a.year != b.year { a.year > b.year }
    else if a.month != b.month { a.month > b.month }
    else if a.day != b.day { a.day > b.day }
    else if a.hours != b.hours { a.hours > b.hours }
    else if a.minutes != b.minutes { a.minutes > b.minutes }
    else { a.milliseconds > b.milliseconds }
}

pub open spec fn needs_file(mode: MasterFileTransferMode) -> bool {
    mode == MasterFileTransferMode::Download || mode == MasterFileTransferMode::Upload || mode == MasterFileTransferMode::QueryLog
}

pub open spec fn needs_path(mode: MasterFileTransferMode) -> bool {
    mode == MasterFileTransferMode::Download || mode == MasterFileTransferMode::Upload
}

/// The first rule a request breaks, if any. `max_file_size` is the largest
/// file one section carries with the request's ASDU size (none when an ASDU
/// that small cannot carry a segment); `upload_size` is the size of the file
/// to upload, or why it could not be read.
pub open spec fn request_failure(
    request: MasterFileTransferRequest,
    max_file_size: Option<u32>,
    upload_size: Result<u64, Seq<char>>,
) -> Option<Seq<char>> {
    match request_field_failure(request, max_file_size) {
        Some(m) => Some(m),
        None => if request.mode == MasterFileTransferMode::Upload && upload_size is Err {
            Some("读取上传文件失败: "@ + upload_size->Err_0)
        } else if request.mode == MasterFileTransferMode::Upload && upload_size->Ok_0 > max_file_size->0 {
            Some("上传文件超过上限 "@ + decimal(max_file_size->0 as nat) + " bytes"@)
        } else {
            None
        },
    }
}

/// Why the fields of a file transfer request are refused, if they are; these
/// checks come before any local file is read.
pub open spec fn request_field_failure(request: MasterFileTransferRequest, max_file_size: Option<u32>) -> Option<Seq<char>> {
    if request.common_address == 0 {
        Some("文件传输 CA 必须在 1..=65535"@)
    } else if request.ioa > 0x00FF_FFFF {
        Some("文件传输 IOA 超过 24 位"@)
    } else if max_file_size is None || request.max_asdu_bytes <= 13 {
        Some("max_asdu_bytes 过小，无法承载 TI125"@)
    } else if needs_file(request.mode) && (request.nof is None || request.nof == Some(0u16)) {
        Some("下载/上传/日志查询必须提供非零 NOF"@)
    } else if needs_path(request.mode) && trim_seq(match request.local_path { Some(p) => p@, None => Seq::empty() }).len() == 0 {
        Some("下载/上传必须提供 local_path"@)
    } else if request.mode == MasterFileTransferMode::QueryLog && cp56_instant(request.query_range_start_time@) is None {
        Some("query_range_start_time 不是合法 CP56"@)
    } else if request.mode == MasterFileTransferMode::QueryLog && cp56_instant(request.query_range_end_time@) is None {
        Some("query_range_end_time 不是合法 CP56"@)
    } else if request.mode == MasterFileTransferMode::QueryLog
        && cp56_later(cp56_instant(request.query_range_start_time@)->0, cp56_instant(request.query_range_end_time@)->0) {
        Some("查询起始时间不能晚于结束时间"@)
    } else {
        None
    }
}

pub open spec fn size_view(r: Result<u64, String>) -> Result<u64, Seq<char>> {
    match r {
        Ok(v) => Ok(v),
        Err(e) => Err(e@),
    }
}

/// Checks the fields of a file transfer request, before any local file is read.
pub fn validate_file_transfer_request_fields(request: &MasterFileTransferRequest, max_file_size: Option<u32>) -> (r: Result<(), String>)
    ensures
        match request_field_failure(*request, max_file_size) {
            None => r is Ok,
            Some(m) => r matches Err(e) && e@ == m,
        },
{
    if request.common_address == 0 {
        return Err(String::from_str("文件传输 CA 必须在 1..=65535"));
    }
    if request.ioa > 0x00FF_FFFF {
        return Err(String::from_str("文件传输 IOA 超过 24 位"));
    }
    if max_file_size.is_none() || request.max_asdu_bytes <= 13 {
        return Err(String::from_str("max_asdu_bytes 过小，无法承载 TI125"));
    }
    let file_mode = request.mode == MasterFileTransferMode::Download || request.mode == MasterFileTransferMode::Upload
        || request.mode == MasterFileTransferMode::QueryLog;
    if file_mode && (request.nof.is_none() || request.nof == Some(0u16)) {
        return Err(String::from_str("下载/上传/日志查询必须提供非零 NOF"));
    }
    let path_mode = request.mode == MasterFileTransferMode::Download || request.mode == MasterFileTransferMode::Upload;
    if path_mode {
        let blank = match &request.local_path {
            Some(p) => {
                let (a, b) = trim_bounds(p.as_str());
                a == b
            },
            None => {
                proof { lemma_trim_empty(); }
                true
            },
        };
        if blank {
            return Err(String::from_str("下载/上传必须提供 local_path"));
        }
    }
    if request.mode == MasterFileTransferMode::QueryLog {
        let start = decode_cp56_instant(&request.query_range_start_time);
        let end = decode_cp56_instant(&request.query_range_end_time);
        match (start, end) {
            (None, _) => { return Err(String::from_str("query_range_start_time 不是合法 CP56")); },
            (Some(_), None) => { return Err(String::from_str("query_range_end_time 不是合法 CP56")); },
            (Some(a), Some(b)) => {
                if cp56_is_later(&a, &b) {
                    return Err(String::from_str("查询起始时间不能晚于结束时间"));
                }
            },
        }
    }
    Ok(())
}

/// Checks a file transfer request before a session is opened: its fields
/// first, then the size of the file to upload, or why it could not be read.
pub fn validate_file_transfer_request(request: &MasterFileTransferRequest, max_file_size: Option<u32>, upload_size: &Result<u64, String>) -> (r: Result<(), String>)
    ensures
        match request_failure(*request, max_file_size, size_view(*upload_size)) {
            None => r is Ok,
            Some(m) => r matches Err(e) && e@ == m,
        },
{
    validate_file_transfer_request_fields(request, max_file_size)?;
    if request.mode == MasterFileTransferMode::Upload {
        let limit = match max_file_size { Some(v) => v, None => 0 };
        match upload_size {
            Err(e) => { return Err(join2("读取上传文件失败: ", e.as_str())); },
            Ok(size) => {
                if *size > limit as u64 {
                    return Err(text_with_number("上传文件超过上限 ", limit as u64, " bytes"));
                }
            },
        }
    }
    Ok(())
}

proof fn lemma_trim_empty()
    ensures
        trim_seq(Seq::<char>::empty()).len() == 0,
{
    reveal_with_fuel(crate::strutil::trim_start_seq, 2);
    reveal_with_fuel(crate::strutil::trim_end_seq, 2);
}

/// Why a connection cannot run a file transfer, if it cannot: an unknown or
/// unconnected link is not connected (`Some(None)`); a link whose data
/// transfer is not started refuses it with a message (`Some(Some(..))`).
pub open spec fn connection_failure(state: Option<(TransportState, DataTransferState)>) -> Option<Option<Seq<char>>> {
    match state {
        None => Some(None),
        Some((t, d)) => if t != TransportState::Connected {
            Some(None)
        } else if d != DataTransferState::Started {
            Some(Some("业务链路未启动(STARTDT)"@))
        } else {
            None
        },
    }
}

/// A file transfer needs a connected link whose data transfer is started.
pub fn validate_connection_state(state: Option<(TransportState, DataTransferState)>) -> (r: Result<(), FileTransferFailure>)
    ensures
        match connection_failure(state) {
            None => r is Ok,
            Some(None) => r matches Err(FileTransferFailure::NotConnected),
            Some(Some(m)) => r matches Err(FileTransferFailure::Protocol(e)) && e@ == m,
        },
{
    match state {
        None => Err(FileTransferFailure::NotConnected),
        Some((t, d)) => {
            if t != TransportState::Connected {
                Err(FileTransferFailure::NotConnected)
            } else if d != DataTransferState::Started {
                Err(FileTransferFailure::Protocol(String::from_str("业务链路未启动(STARTDT)")))
            } else {
                Ok(())
            }
        },
    }
}

/// The ASDU size a file transfer uses: that of the profile the connection
/// belongs to, else the default. A stored profile keeps the default ASDU size.
pub fn resolve_file_transfer_max_asdu_bytes(profile: Option<ConnectionParams>, defaults: &LinkParams) -> (r: u16)
    ensures
        r == defaults.max_asdu_bytes,
{
    match profile {
        Some(params) => connection_params_to_link_params(&params, defaults).max_asdu_bytes,
        None => defaults.max_asdu_bytes,
    }
}

/// The slave a file transfer addresses when the request names none: of the
/// enabled slaves `(id, common address, enabled)` of the connection's profile,
/// the first with the lowest common address; its id is 0 when it has none.
pub fn pick_default_transfer_slave(rows: &Vec<(Option<i64>, u16, bool)>) -> (r: Option<(i64, u16)>)
    ensures
        (forall|k: int| 0 <= k < rows@.len() ==> !(#[trigger] rows@[k]).2) ==> r is None,
        (exists|k: int| 0 <= k < rows@.len() && (#[trigger] rows@[k]).2) ==> (r matches Some((id, ca)) && exists|k: int| {
            &&& 0 <= k < rows@.len()
            &&& (#[trigger] rows@[k]).2
            &&& ca == rows@[k].1
            &&& id == (match rows@[k].0 { Some(v) => v, None => 0 })
            &&& forall|j: int| 0 <= j < rows@.len() && rows@[j].2 ==> rows@[k].1 <= #[trigger] rows@[j].1
            &&& forall|j: int| 0 <= j < k && rows@[j].2 ==> rows@[k].1 < #[trigger] rows@[j].1
        }),
{
    let mut best: Option<usize> = None;
    let mut i: usize = 0;
    while i < rows.len()
        invariant
            i <= rows@.len(),
            best is None <==> (forall|k: int| 0 <= k < i ==> !(#[trigger] rows@[k]).2),
            best matches Some(b) ==> {
                &&& b < i
                &&& rows@[b as int].2
                &&& forall|j: int| 0 <= j < i && rows@[j].2 ==> rows@[b as int].1 <= #[trigger] rows@[j].1
                &&& forall|j: int| 0 <= j < b && rows@[j].2 ==> rows@[b as int].1 < #[trigger] rows@[j].1
            },
        decreases rows@.len() - i,
    {
        if rows[i].2 {
            match best {
                None => { best = Some(i); },
                Some(b) => {
                    if rows[i].1 < rows[b].1 {
                        best = Some(i);
                    }
                },
            }
        }
        i = i + 1;
    }
    match best {
        None => None,
        Some(b) => {
            let id = match rows[b].0 { Some(v) => v, None => 0 };
            proof { assert(rows@[b as int].2); }
            Some((id, rows[b].1))
        },
    }
}

} // verus!
