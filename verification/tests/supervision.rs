use iec104_simulator_backend::supervision::{
    auto_gi_common_addresses, DataTransferState, FrameCountRecoveryStrategy, LinkSupervisor, LinkTimerSettings,
    RecoveryPlan, RestartOutcome, TickAction, TransportState, UnconfirmedAction, IEC104_LINK_MAX_RETRANSMIT_ATTEMPTS,
};

fn settings() -> LinkTimerSettings {
    LinkTimerSettings::new(30, 15, 10, 20, 8)
}

#[test]
fn timer_settings_are_at_least_one() {
    let s = LinkTimerSettings::new(0, 0, 5, 0, 0);
    assert_eq!(s.t0_seconds, 1);
    assert_eq!(s.t1_seconds, 1);
    assert_eq!(s.t2_seconds, 5);
    assert_eq!(s.t3_seconds, 1);
    assert_eq!(s.w_value, 1);
}

#[test]
fn strategy_names_are_read_loosely() {
    assert_eq!(FrameCountRecoveryStrategy::parse(" StopDT "), FrameCountRecoveryStrategy::StopDtStartDt);
    assert_eq!(FrameCountRecoveryStrategy::parse("stopdt_startdt"), FrameCountRecoveryStrategy::StopDtStartDt);
    assert_eq!(FrameCountRecoveryStrategy::parse("STOPDTSTARTDT"), FrameCountRecoveryStrategy::StopDtStartDt);
    assert_eq!(FrameCountRecoveryStrategy::parse("reconnect"), FrameCountRecoveryStrategy::TcpReconnect);
    assert_eq!(FrameCountRecoveryStrategy::parse(""), FrameCountRecoveryStrategy::TcpReconnect);
}

#[test]
fn handshake_times_out_after_t0() {
    let mut s = LinkSupervisor::new(settings(), true, 1_000);
    assert_eq!(s.tick(TransportState::Connected, DataTransferState::Starting, 30_999), TickAction::Idle);
    assert_eq!(s.tick(TransportState::Connected, DataTransferState::Starting, 31_000), TickAction::HandshakeTimeout);
}

#[test]
fn handshake_clock_restarts_when_starting_again() {
    let mut s = LinkSupervisor::new(settings(), false, 0);
    assert_eq!(s.tick(TransportState::Connected, DataTransferState::Stopped, 50_000), TickAction::Idle);
    assert_eq!(s.tick(TransportState::Connected, DataTransferState::Starting, 60_000), TickAction::Idle);
    assert_eq!(s.handshake_started_at, 60_000);
    assert_eq!(s.tick(TransportState::Connected, DataTransferState::Starting, 90_000), TickAction::HandshakeTimeout);
}

#[test]
fn test_frame_waits_t1_for_confirmation() {
    let mut s = LinkSupervisor::new(settings(), true, 0);
    s.on_test_sent(100_000);
    assert_eq!(s.tick(TransportState::Connected, DataTransferState::Started, 114_999), TickAction::Idle);
    assert_eq!(s.tick(TransportState::Connected, DataTransferState::Started, 115_000), TickAction::TestFrameTimeout);
    s.on_test_confirmed();
    assert_eq!(s.pending_test, None);
}

#[test]
fn delayed_ack_is_due_after_t2() {
    let mut s = LinkSupervisor::new(settings(), true, 0);
    assert!(!s.on_iframes_received(3, 1_000));
    assert_eq!(s.pending_ack_count, 3);
    assert_eq!(s.tick(TransportState::Connected, DataTransferState::Started, 10_999), TickAction::CheckUnconfirmed);
    assert_eq!(s.tick(TransportState::Connected, DataTransferState::Started, 11_000), TickAction::SendDelayedAck);
    s.on_delayed_ack_sent(11_000);
    assert_eq!(s.pending_ack_count, 0);
    assert_eq!(s.pending_ack_since, None);
    assert_eq!(s.last_activity, 11_000);
}

#[test]
fn w_window_asks_for_an_ack() {
    let mut s = LinkSupervisor::new(settings(), true, 0);
    assert!(!s.on_iframes_received(7, 5));
    assert!(s.on_iframes_received(1, 6));
    assert_eq!(s.pending_ack_since, Some(5));
    s.on_ack_sent();
    assert_eq!(s.pending_ack_count, 0);
    assert!(!s.on_iframes_received(0, 7));
}

#[test]
fn unconfirmed_frames_are_retransmitted_then_given_up() {
    let mut s = LinkSupervisor::new(settings(), true, 0);
    assert_eq!(s.check_unconfirmed(2, 1_000), UnconfirmedAction::Idle);
    assert_eq!(s.unacked_since, Some(1_000));
    let mut now = 1_000;
    for attempt in 1..=IEC104_LINK_MAX_RETRANSMIT_ATTEMPTS {
        now += 15_000;
        assert_eq!(s.check_unconfirmed(2, now), UnconfirmedAction::Retransmit);
        assert_eq!(s.retransmit_attempts, attempt);
        s.on_retransmitted(now);
    }
    now += 15_000;
    assert_eq!(s.check_unconfirmed(2, now), UnconfirmedAction::GiveUp);
    assert_eq!(s.retransmit_attempts, IEC104_LINK_MAX_RETRANSMIT_ATTEMPTS);
}

#[test]
fn peer_ack_resets_retransmission() {
    let mut s = LinkSupervisor::new(settings(), true, 0);
    s.check_unconfirmed(1, 0);
    assert_eq!(s.check_unconfirmed(1, 15_000), UnconfirmedAction::Retransmit);
    s.on_peer_ack(4, 1, 16_000);
    assert_eq!(s.retransmit_attempts, 0);
    assert_eq!(s.last_peer_ack_sequence, 4);
    assert_eq!(s.unacked_since, Some(16_000));
    s.on_peer_ack(4, 0, 17_000);
    assert_eq!(s.unacked_since, None);
}

#[test]
fn idle_link_sends_a_test_frame_after_t3() {
    let mut s = LinkSupervisor::new(settings(), true, 0);
    s.on_data_received(2_000);
    assert_eq!(s.check_unconfirmed(0, 21_999), UnconfirmedAction::Idle);
    assert_eq!(s.check_unconfirmed(0, 22_000), UnconfirmedAction::SendTestFrame);
}

#[test]
fn stopdt_startdt_recovery_is_tried_once() {
    let mut s = LinkSupervisor::new(settings(), true, 0);
    assert_eq!(s.plan_frame_count_recovery(FrameCountRecoveryStrategy::StopDtStartDt), RecoveryPlan::StopDtStartDt);
    assert_eq!(s.plan_frame_count_recovery(FrameCountRecoveryStrategy::StopDtStartDt), RecoveryPlan::TcpReconnect);
    let mut t = LinkSupervisor::new(settings(), true, 0);
    assert_eq!(t.plan_frame_count_recovery(FrameCountRecoveryStrategy::TcpReconnect), RecoveryPlan::TcpReconnect);
    assert!(!t.frame_count_recovery_attempted);
}

#[test]
fn restart_clears_the_link_counters() {
    let mut s = LinkSupervisor::new(settings(), true, 0);
    s.on_iframes_received(3, 1);
    s.check_unconfirmed(1, 2);
    s.on_peer_ack(9, 1, 3);
    s.on_test_sent(4);
    s.restart_data_transfer(50);
    assert_eq!(s.pending_test, None);
    assert_eq!(s.pending_ack_count, 0);
    assert_eq!(s.unacked_since, None);
    assert_eq!(s.retransmit_attempts, 0);
    assert_eq!(s.last_peer_ack_sequence, 0);
    assert_eq!(s.handshake_started_at, 50);
}

#[test]
fn auto_gi_addresses_are_enabled_unique_and_sorted() {
    let slaves = vec![(5u16, true), (2, true), (5, true), (9, false), (3, true)];
    assert_eq!(auto_gi_common_addresses(&slaves, 1), vec![2, 3, 5]);
    let none = vec![(4u16, false)];
    assert_eq!(auto_gi_common_addresses(&none, 7), vec![7]);
    assert_eq!(auto_gi_common_addresses(&Vec::new(), 1), vec![1]);
}

#[test]
fn a_failed_restart_falls_back_to_reconnecting() {
    let mut sup = LinkSupervisor::new(settings(), true, 100);
    assert_eq!(sup.on_restart_attempt(true, 5_000), RestartOutcome::Restarted);
    assert_eq!(sup.handshake_started_at, 5_000);
    assert_eq!(sup.last_peer_ack_sequence, 0);
    let mut sup = LinkSupervisor::new(settings(), true, 100);
    assert_eq!(sup.on_restart_attempt(false, 5_000), RestartOutcome::Reconnect);
    assert_eq!(sup.handshake_started_at, 100);
}
