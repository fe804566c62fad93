//! Requests the interface sends and the answers it receives for stations,
//! link profiles, slaves, exports and frame parsing.

use vstd::prelude::*;

use crate::api::{CreateStationRequest, StationConfigResponse};
use crate::policy::{LinkParams, SlaveStationPolicy, SlaveStationPolicyOverride};
use crate::types::PointDef;

verus! {

/// An exported capture, its bytes in base64.
#[derive(Clone, Debug)]
pub struct ExportCaptureResponse {
    pub file_name: String,
    pub mime_type: String,
    pub data_base64: String,
}

/// An exported point table template, its bytes in base64.
#[derive(Clone, Debug)]
pub struct PointTableTemplateExportResponse {
    pub file_name: String,
    pub mime_type: String,
    pub data_base64: String,
}

/// How redundant connections of a group are run.
#[derive(Clone, Copy, Debug, PartialEq, Eq, Structural)]
pub enum RedundancyGroupMode {
    Single,
    Connection,
    Multi,
}

/// A request to connect the master to a slave.
#[derive(Clone, Debug)]
pub struct ConnectRequest {
    pub host: String,
    pub port: u16,
    pub profile_id: Option<i64>,
    pub auto_start_data_transfer: Option<bool>,
}

/// A link profile to create or update.
#[derive(Clone, Debug)]
pub struct UpsertLinkProfileRequest {
    pub name: String,
    pub host: String,
    pub port: u16,
    pub link_params: LinkParams,
    pub auto_connect: bool,
    pub auto_start_data_transfer: bool,
    pub auto_gi: bool,
    pub retry_count: u32,
    pub retry_interval: u32,
}

/// A slave of a link profile to create or update.
#[derive(Clone, Debug)]
pub struct UpsertLinkSlaveRequest {
    pub name: String,
    pub common_address: u16,
    pub enabled: bool,
}

/// A slave of a link profile together with its point table.
#[derive(Clone, Debug)]
pub struct UpsertLinkSlaveBundleRequest {
    pub slave: UpsertLinkSlaveRequest,
    pub point_defs: Vec<PointDef>,
}

/// The stored slave of a link profile and how many points were stored.
#[derive(Clone, Debug)]
pub struct UpsertLinkSlaveBundleResponse {
    pub slave_id: i64,
    pub point_defs_updated: usize,
}

/// A stored link profile.
#[derive(Clone, Debug)]
pub struct LinkProfileResponse {
    pub id: i64,
    pub station_id: String,
    pub name: String,
    pub host: String,
    pub port: u16,
    pub link_params: LinkParams,
    pub auto_connect: bool,
    pub auto_start_data_transfer: bool,
    pub auto_gi: bool,
    pub retry_count: u32,
    pub retry_interval: u32,
}

/// A stored slave of a link profile.
#[derive(Clone, Debug)]
pub struct LinkSlaveResponse {
    pub id: i64,
    pub connection_id: i64,
    pub name: String,
    pub common_address: u16,
    pub enabled: bool,
}

/// A logical slave of a slave station to create or update.
#[derive(Clone, Debug)]
pub struct UpsertSlaveRequest {
    pub name: String,
    pub common_address: u16,
    pub enabled: bool,
    pub station_policy_override: SlaveStationPolicyOverride,
}

/// A logical slave together with its point table.
#[derive(Clone, Debug)]
pub struct UpsertSlaveBundleRequest {
    pub slave: UpsertSlaveRequest,
    pub point_defs: Vec<PointDef>,
}

/// The stored logical slave and how many points were stored.
#[derive(Clone, Debug)]
pub struct UpsertSlaveBundleResponse {
    pub slave_id: i64,
    pub point_defs_updated: usize,
}

/// A stored logical slave with its own and its effective policy.
#[derive(Clone, Debug)]
pub struct SlaveResponse {
    pub id: i64,
    pub station_id: i64,
    pub name: String,
    pub common_address: u16,
    pub enabled: bool,
    pub station_policy_override: SlaveStationPolicyOverride,
    pub effective_station_policy: SlaveStationPolicy,
}

/// A new listener configuration for a slave station.
#[derive(Clone, Debug)]
pub struct UpdateSlaveStationConfigBundleRequest {
    pub config: CreateStationRequest,
}

/// The updated slave station and how many points were stored.
#[derive(Clone, Debug)]
pub struct UpdateSlaveStationConfigBundleResponse {
    pub station: StationConfigResponse,
    pub point_defs_updated: usize,
}

/// How a parsed frame is shown.
#[derive(Clone, Copy, Debug, PartialEq, Eq, Structural)]
pub enum MessageDetailParseViewMode {
    Table,
    Tree,
}

/// How far a frame could be parsed.
#[derive(Clone, Copy, Debug, PartialEq, Eq, Structural)]
pub enum MessageParserStatus {
    Success,
    Partial,
    Error,
}

/// How the bytes of a frame to parse were written.
#[derive(Clone, Copy, Debug, PartialEq, Eq, Structural)]
pub enum MessageParserInputKind {
    HexContinuous,
    HexByteTokens,
    HexPrefixedTokens,
    EscapedBytes,
    ByteArray,
}

/// How a node of a parsed frame is highlighted.
#[derive(Clone, Copy, Debug, PartialEq, Eq, Structural)]
pub enum MessageParserNodeTone {
    Neutral,
    Warning,
    Danger,
}

/// The bytes `start..end` of a frame.
#[derive(Clone, Copy, Debug, PartialEq, Eq, Structural)]
pub struct MessageParserByteRange {
    pub start: usize,
    pub end: usize,
}

/// A problem found while parsing a frame.
#[derive(Clone, Debug)]
pub struct MessageParserIssue {
    pub code: String,
    pub message: String,
    pub detail: Option<String>,
    pub byte_range: Option<MessageParserByteRange>,
}

/// What a parsed frame is, field by field.
#[derive(Clone, Debug)]
pub struct MessageFrameParseSummary {
    pub input_kind: Option<MessageParserInputKind>,
    pub input_kind_label: Option<String>,
    pub input_byte_count: usize,
    pub frame_byte_count: usize,
    pub extra_byte_count: usize,
    pub declared_frame_byte_count: Option<usize>,
    pub input_hex: String,
    pub frame_hex: String,
    pub normalized_bytes: Vec<u8>,
    pub frame_type: Option<String>,
    pub frame_type_label: Option<String>,
    pub apdu_length: Option<u8>,
    pub send_seq: Option<u16>,
    pub recv_seq: Option<u16>,
    pub type_id: Option<u8>,
    pub asdu_type_name: Option<String>,
    pub cause_of_transmission: Option<u8>,
    pub cause_description: Option<String>,
    pub common_address: Option<u16>,
    pub object_count: Option<usize>,
}

/// A frame the user wants parsed, as typed.
#[derive(Clone, Debug)]
pub struct ParseMessageFrameRequest {
    pub input_text: String,
}

} // verus!
