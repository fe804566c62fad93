use vstd::prelude::*;

pub mod admission;
pub mod alias;
pub mod api;
pub mod commands;
pub mod connection;
pub mod control;
pub mod cp56;
pub mod decoded;
pub mod errors;
pub mod export;
pub mod file_transfer;
pub mod import;
pub mod import_store;
pub mod ingest;
pub mod json_text;
pub mod ids;
pub mod measurement;
pub mod message_log;
pub mod pending;
pub mod point_sync;
pub mod point_store;
pub mod policy;
pub mod query_time;
pub mod registry;
pub mod requests;
pub mod seqs;
pub mod slave_decode;
pub mod station_update;
pub mod strutil;
pub mod supervision;
pub mod targets;
pub mod text;
pub mod transfer_flow;
pub mod transfer_steps;
pub mod types;
pub mod ui_language;
pub mod wire;

verus! {

/// Largest information object address that fits the three-byte IOA field.
pub const IEC104_IOA_MAX: u32 = 0x00FF_FFFF;

/// True when `type_id` is one of the control command types (45..=51, 58..=64).
pub fn is_control_command_type_id(type_id: u8) -> (r: bool)
    ensures
        r == ((45 <= type_id <= 51) || (58 <= type_id <= 64)),
{
    (45 <= type_id && type_id <= 51) || (58 <= type_id && type_id <= 64)
}

} // verus!
