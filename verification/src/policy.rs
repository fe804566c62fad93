//! Slave station policies: the global defaults, what a connection's link
//! parameters and a station's own override change of them, and the link
//! parameters a master link profile stores.

use vstd::prelude::*;

verus! {

/// How a slave executes control commands.
#[derive(Clone, Copy, Debug, PartialEq, Eq, Structural)]
pub enum ControlExecutionMode {
    /// Select-before-operate as the command asks for it.
    FollowCommand,
    /// Execute directly, without waiting for a select.
    DirectExecute,
}

/// How a slave station behaves.
#[derive(Clone, Copy, Debug, PartialEq, Eq, Structural)]
pub struct SlaveStationPolicy {
    pub select_timeout_seconds: u64,
    pub enable_sq1_upload: bool,
    pub enable_soe: bool,
    pub control_execution_mode: ControlExecutionMode,
}

/// What a station sets differently from its defaults.
#[derive(Clone, Copy, Debug, PartialEq, Eq, Structural)]
pub struct SlaveStationPolicyOverride {
    pub select_timeout_seconds: Option<u64>,
    pub enable_sq1_upload: Option<bool>,
    pub enable_soe: Option<bool>,
    pub control_execution_mode: Option<ControlExecutionMode>,
}

/// Link parameters of a connection.
#[derive(Clone, Copy, Debug, PartialEq, Eq, Structural)]
pub struct LinkParams {
    pub k_value: u16,
    pub w_value: u16,
    pub t0_seconds: u64,
    pub t1_seconds: u64,
    pub t2_seconds: u64,
    pub t3_seconds: u64,
    pub max_asdu_bytes: u16,
    pub select_timeout_seconds: u64,
    pub enable_sq1_upload: bool,
    pub enable_soe: bool,
    pub unknown_typeid_negative_ack: bool,
    pub outbound_queue_capacity: u64,
    pub spontaneous_flush_ms: u64,
    pub simulation_latest_only: bool,
}

/// The select timeout kept within one second and one hour.
pub open spec fn clamp_timeout(v: u64) -> u64 {
    if v < 1 { 1 } else if v > 3600 { 3600 } else { v }
}

fn clamp_seconds(v: u64) -> (r: u64)
    ensures
        r == clamp_timeout(v),
{
    if v < 1 { 1 } else if v > 3600 { 3600 } else { v }
}

/// Global defaults with the select timeout clamped to 1..=3600.
pub fn sanitize_station_policy_defaults(policy: SlaveStationPolicy) -> (r: SlaveStationPolicy)
    ensures
        r == (SlaveStationPolicy { select_timeout_seconds: clamp_timeout(policy.select_timeout_seconds), ..policy }),
{
    SlaveStationPolicy { select_timeout_seconds: clamp_seconds(policy.select_timeout_seconds), ..policy }
}

/// A station override with a given select timeout clamped to 1..=3600.
pub fn sanitize_station_policy_override(policy: SlaveStationPolicyOverride) -> (r: SlaveStationPolicyOverride)
    ensures
        r == (SlaveStationPolicyOverride {
            select_timeout_seconds: match policy.select_timeout_seconds { Some(v) => Some(clamp_timeout(v)), None => None },
            ..policy
        }),
{
    SlaveStationPolicyOverride {
        select_timeout_seconds: match policy.select_timeout_seconds { Some(v) => Some(clamp_seconds(v)), None => None },
        ..policy
    }
}

/// The policy a station runs with: the connection's link parameters replace
/// the global defaults (but for the control execution mode), and what the
/// station overrides replaces those; the timeout is clamped to 1..=3600.
pub open spec fn spec_effective_policy(
    global_defaults: SlaveStationPolicy,
    connection_override: Option<LinkParams>,
    station_override: SlaveStationPolicyOverride,
) -> SlaveStationPolicy {
    let base = match connection_override {
        Some(p) => SlaveStationPolicy {
            select_timeout_seconds: clamp_timeout(p.select_timeout_seconds),
            enable_sq1_upload: p.enable_sq1_upload,
            enable_soe: p.enable_soe,
            control_execution_mode: global_defaults.control_execution_mode,
        },
        None => global_defaults,
    };
    SlaveStationPolicy {
        select_timeout_seconds: clamp_timeout(match station_override.select_timeout_seconds {
            Some(v) => v, None => base.select_timeout_seconds }),
        enable_sq1_upload: match station_override.enable_sq1_upload { Some(v) => v, None => base.enable_sq1_upload },
        enable_soe: match station_override.enable_soe { Some(v) => v, None => base.enable_soe },
        control_execution_mode: match station_override.control_execution_mode {
            Some(v) => v, None => base.control_execution_mode },
    }
}

/// The policy a station runs with.
pub fn resolve_effective_station_policy(
    global_defaults: SlaveStationPolicy,
    connection_override: Option<LinkParams>,
    station_override: SlaveStationPolicyOverride,
) -> (r: SlaveStationPolicy)
    ensures
        r == spec_effective_policy(global_defaults, connection_override, station_override),
{
    let base = match connection_override {
        Some(p) => SlaveStationPolicy {
            select_timeout_seconds: clamp_seconds(p.select_timeout_seconds),
            enable_sq1_upload: p.enable_sq1_upload,
            enable_soe: p.enable_soe,
            control_execution_mode: global_defaults.control_execution_mode,
        },
        None => global_defaults,
    };
    SlaveStationPolicy {
        select_timeout_seconds: clamp_seconds(match station_override.select_timeout_seconds {
            Some(v) => v,
            None => base.select_timeout_seconds,
        }),
        enable_sq1_upload: match station_override.enable_sq1_upload { Some(v) => v, None => base.enable_sq1_upload },
        enable_soe: match station_override.enable_soe { Some(v) => v, None => base.enable_soe },
        control_execution_mode: match station_override.control_execution_mode {
            Some(v) => v,
            None => base.control_execution_mode,
        },
    }
}

/// Whatever the defaults and overrides, a station's select timeout lies in
/// 1..=3600 seconds, and everything the station overrides takes effect.
pub proof fn effective_policy_is_bounded_and_overridable(
    global_defaults: SlaveStationPolicy,
    connection_override: Option<LinkParams>,
    station_override: SlaveStationPolicyOverride,
)
    ensures
        ({
            let p = spec_effective_policy(global_defaults, connection_override, station_override);
            &&& 1 <= p.select_timeout_seconds <= 3600
            &&& (station_override.select_timeout_seconds matches Some(v) ==> p.select_timeout_seconds == clamp_timeout(v))
            &&& (station_override.enable_sq1_upload matches Some(v) ==> p.enable_sq1_upload == v)
            &&& (station_override.enable_soe matches Some(v) ==> p.enable_soe == v)
            &&& (station_override.control_execution_mode matches Some(v) ==> p.control_execution_mode == v)
        }),
{
}

/// Sanitizing twice changes nothing more than sanitizing once.
pub proof fn sanitize_is_idempotent(policy: SlaveStationPolicy, station_override: SlaveStationPolicyOverride)
    ensures
        clamp_timeout(clamp_timeout(policy.select_timeout_seconds)) == clamp_timeout(policy.select_timeout_seconds),
        (match station_override.select_timeout_seconds { Some(v) => Some(clamp_timeout(clamp_timeout(v))), None => None::<u64> })
            == (match station_override.select_timeout_seconds { Some(v) => Some(clamp_timeout(v)), None => None::<u64> }),
{
}

/// Link parameters as a master link profile stores them.
#[derive(Clone, Copy, Debug, PartialEq, Eq, Structural)]
pub struct ConnectionParams {
    pub k_value: u16,
    pub w_value: u16,
    pub t0: u32,
    pub t1: u32,
    pub t2: u32,
    pub t3: u32,
}

/// The link parameters of a stored profile; what a profile does not store comes from `defaults`.
pub fn connection_params_to_link_params(params: &ConnectionParams, defaults: &LinkParams) -> (r: LinkParams)
    ensures
        r == (LinkParams {
            k_value: params.k_value,
            w_value: params.w_value,
            t0_seconds: params.t0 as u64,
            t1_seconds: params.t1 as u64,
            t2_seconds: params.t2 as u64,
            t3_seconds: params.t3 as u64,
            ..*defaults
        }),
{
    LinkParams {
        k_value: params.k_value,
        w_value: params.w_value,
        t0_seconds: params.t0 as u64,
        t1_seconds: params.t1 as u64,
        t2_seconds: params.t2 as u64,
        t3_seconds: params.t3 as u64,
        ..*defaults
    }
}

} // verus!
