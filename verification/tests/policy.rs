use iec104_simulator_backend::file_transfer::resolve_file_transfer_max_asdu_bytes;
use iec104_simulator_backend::policy::{
    connection_params_to_link_params, resolve_effective_station_policy, sanitize_station_policy_defaults,
    sanitize_station_policy_override, ConnectionParams, ControlExecutionMode, LinkParams, SlaveStationPolicy,
    SlaveStationPolicyOverride,
};

fn defaults() -> SlaveStationPolicy {
    SlaveStationPolicy {
        select_timeout_seconds: 30,
        enable_sq1_upload: false,
        enable_soe: true,
        control_execution_mode: ControlExecutionMode::FollowCommand,
    }
}

fn link() -> LinkParams {
    LinkParams {
        k_value: 12,
        w_value: 8,
        t0_seconds: 30,
        t1_seconds: 15,
        t2_seconds: 10,
        t3_seconds: 20,
        max_asdu_bytes: 249,
        select_timeout_seconds: 0,
        enable_sq1_upload: true,
        enable_soe: false,
        unknown_typeid_negative_ack: true,
        outbound_queue_capacity: 1024,
        spontaneous_flush_ms: 20,
        simulation_latest_only: false,
    }
}

const NO_OVERRIDE: SlaveStationPolicyOverride = SlaveStationPolicyOverride {
    select_timeout_seconds: None,
    enable_sq1_upload: None,
    enable_soe: None,
    control_execution_mode: None,
};

#[test]
fn select_timeout_is_clamped() {
    let p = sanitize_station_policy_defaults(SlaveStationPolicy { select_timeout_seconds: 0, ..defaults() });
    assert_eq!(p.select_timeout_seconds, 1);
    let q = sanitize_station_policy_defaults(SlaveStationPolicy { select_timeout_seconds: 9999, ..defaults() });
    assert_eq!(q.select_timeout_seconds, 3600);
    assert_eq!(sanitize_station_policy_defaults(q), q);
    let o = sanitize_station_policy_override(SlaveStationPolicyOverride { select_timeout_seconds: Some(5000), ..NO_OVERRIDE });
    assert_eq!(o.select_timeout_seconds, Some(3600));
}

#[test]
fn station_override_wins_over_connection_and_defaults() {
    assert_eq!(resolve_effective_station_policy(defaults(), None, NO_OVERRIDE), defaults());
    let from_link = resolve_effective_station_policy(defaults(), Some(link()), NO_OVERRIDE);
    assert_eq!(from_link.select_timeout_seconds, 1);
    assert!(from_link.enable_sq1_upload);
    assert!(!from_link.enable_soe);
    assert_eq!(from_link.control_execution_mode, ControlExecutionMode::FollowCommand);
    let station = SlaveStationPolicyOverride {
        select_timeout_seconds: Some(60),
        enable_sq1_upload: Some(false),
        enable_soe: None,
        control_execution_mode: Some(ControlExecutionMode::DirectExecute),
    };
    let p = resolve_effective_station_policy(defaults(), Some(link()), station);
    assert_eq!(p.select_timeout_seconds, 60);
    assert!(!p.enable_sq1_upload);
    assert!(!p.enable_soe);
    assert_eq!(p.control_execution_mode, ControlExecutionMode::DirectExecute);
}

#[test]
fn stored_profiles_keep_the_other_defaults() {
    let params = ConnectionParams { k_value: 20, w_value: 4, t0: 10, t1: 11, t2: 12, t3: 13 };
    let l = connection_params_to_link_params(&params, &link());
    assert_eq!(l.k_value, 20);
    assert_eq!(l.w_value, 4);
    assert_eq!((l.t0_seconds, l.t1_seconds, l.t2_seconds, l.t3_seconds), (10, 11, 12, 13));
    assert_eq!(l.max_asdu_bytes, 249);
    assert_eq!(l.outbound_queue_capacity, 1024);
}

#[test]
fn file_transfers_use_the_default_asdu_size() {
    let params = ConnectionParams { k_value: 20, w_value: 4, t0: 10, t1: 11, t2: 12, t3: 13 };
    assert_eq!(resolve_file_transfer_max_asdu_bytes(Some(params), &link()), 249);
    assert_eq!(resolve_file_transfer_max_asdu_bytes(None, &link()), 249);
}
