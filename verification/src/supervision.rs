//! Link supervision of a master connection: the t0/t1/t2/t3 timers, the
//! w-acknowledgement window, retransmission of unconfirmed I-frames and the
//! recovery after a frame-count error.
//!
//! The state machine decides; the connection task performs what it decides
//! (sending frames, reconnecting) and reports back. Times are monotonic
//! milliseconds.

use vstd::prelude::*;

use crate::strutil::{lower_eq, trim_seq, trimmed_lower_equals};

verus! {

/// Retransmissions of unconfirmed I-frames allowed before the link is given up.
pub const IEC104_LINK_MAX_RETRANSMIT_ATTEMPTS: u32 = 3;

/// Seconds after which a command without response is considered timed out.
pub const PENDING_COMMAND_TIMEOUT_SECONDS: i64 = 15;

/// State of the TCP transport of a connection.
#[derive(Clone, Copy, Debug, PartialEq, Eq, Structural)]
pub enum TransportState {
    Disconnected,
    Connecting,
    Connected,
    Error,
}

/// State of the IEC 104 data transfer (STARTDT/STOPDT) of a connection.
#[derive(Clone, Copy, Debug, PartialEq, Eq, Structural)]
pub enum DataTransferState {
    Stopped,
    Starting,
    Started,
    Stopping,
    Timeout,
    Error,
}

/// What to do after a frame-count error.
#[derive(Clone, Copy, Debug, PartialEq, Eq, Structural)]
pub enum FrameCountRecoveryStrategy {
    /// Drop and re-establish the TCP connection.
    TcpReconnect,
    /// Send STOPDT then STARTDT to reset the sequence numbers.
    StopDtStartDt,
}

pub open spec fn spec_strategy(raw: Seq<char>) -> FrameCountRecoveryStrategy {
    let t = trim_seq(raw);
    if lower_eq(t, "stopdt"@) || lower_eq(t, "stopdt_startdt"@) || lower_eq(t, "stopdtstartdt"@) {
        FrameCountRecoveryStrategy::StopDtStartDt
    } else {
        FrameCountRecoveryStrategy::TcpReconnect
    }
}

impl FrameCountRecoveryStrategy {
    /// Reads a strategy name as the environment gives it: `stopdt`,
    /// `stopdt_startdt` or `stopdtstartdt` in any case and with surrounding
    /// whitespace select STOPDT/STARTDT; anything else selects a reconnect.
    pub fn parse(raw: &str) -> (r: Self)
        ensures
            r == spec_strategy(raw@),
    {
        if trimmed_lower_equals(raw, "stopdt") || trimmed_lower_equals(raw, "stopdt_startdt")
            || trimmed_lower_equals(raw, "stopdtstartdt") {
            FrameCountRecoveryStrategy::StopDtStartDt
        } else {
            FrameCountRecoveryStrategy::TcpReconnect
        }
    }
}

/// The recovery to run after a frame-count error.
#[derive(Clone, Copy, Debug, PartialEq, Eq, Structural)]
pub enum RecoveryPlan {
    StopDtStartDt,
    TcpReconnect,
}

/// Timer settings of a link, each at least one second, and the w window, at least one.
#[derive(Clone, Copy, Debug, PartialEq, Eq, Structural)]
pub struct LinkTimerSettings {
    pub t0_seconds: u32,
    pub t1_seconds: u32,
    pub t2_seconds: u32,
    pub t3_seconds: u32,
    pub w_value: u16,
}

pub open spec fn at_least_one(v: u32) -> u32 {
    if v < 1 { 1 } else { v }
}

impl LinkTimerSettings {
    /// Settings from configured values; zero is raised to one.
    pub fn new(t0_seconds: u32, t1_seconds: u32, t2_seconds: u32, t3_seconds: u32, w_value: u16) -> (r: Self)
        ensures
            r.t0_seconds == at_least_one(t0_seconds),
            r.t1_seconds == at_least_one(t1_seconds),
            r.t2_seconds == at_least_one(t2_seconds),
            r.t3_seconds == at_least_one(t3_seconds),
            r.w_value == (if w_value < 1 { 1 } else { w_value }),
    {
        LinkTimerSettings {
            t0_seconds: if t0_seconds < 1 { 1 } else { t0_seconds },
            t1_seconds: if t1_seconds < 1 { 1 } else { t1_seconds },
            t2_seconds: if t2_seconds < 1 { 1 } else { t2_seconds },
            t3_seconds: if t3_seconds < 1 { 1 } else { t3_seconds },
            w_value: if w_value < 1 { 1 } else { w_value },
        }
    }
}

/// Milliseconds from `since` to `now`, zero when `now` is earlier.
pub open spec fn elapsed(since: u64, now: u64) -> int {
    if now >= since { now - since } else { 0 }
}

/// Whether at least `seconds` have passed from `since` to `now`.
pub open spec fn expired(since: u64, now: u64, seconds: u32) -> bool {
    elapsed(since, now) >= seconds as int * 1000
}

fn has_expired(since: u64, now: u64, seconds: u32) -> (r: bool)
    ensures
        r == expired(since, now, seconds),
{
    let passed: u64 = if now >= since { now - since } else { 0 };
    passed >= (seconds as u64) * 1000
}

/// The supervision state of one connection.
#[derive(Clone, Copy, Debug, PartialEq, Eq, Structural)]
pub struct LinkSupervisor {
    pub settings: LinkTimerSettings,
    pub handshake_started_at: u64,
    pub last_activity: u64,
    pub pending_test: Option<u64>,
    pub last_data_transfer_state: DataTransferState,
    pub unacked_since: Option<u64>,
    pub retransmit_attempts: u32,
    pub last_peer_ack_sequence: u16,
    pub pending_ack_count: u16,
    pub pending_ack_since: Option<u64>,
    pub frame_count_recovery_attempted: bool,
}

/// What the first part of a timer tick asks for.
#[derive(Clone, Copy, Debug, PartialEq, Eq, Structural)]
pub enum TickAction {
    /// STARTDT was not confirmed within t0: mark the transfer timed out and recover.
    HandshakeTimeout,
    /// A test frame was not confirmed within t1: mark the transfer timed out and recover.
    TestFrameTimeout,
    /// Nothing to do on this tick.
    Idle,
    /// Received I-frames waited t2 for an acknowledgement: send an S-frame, then run the second part.
    SendDelayedAck,
    /// Run the second part of the tick.
    CheckUnconfirmed,
}

/// What the second part of a timer tick asks for.
#[derive(Clone, Copy, Debug, PartialEq, Eq, Structural)]
pub enum UnconfirmedAction {
    /// Unconfirmed I-frames outlived t1 too often: mark the transfer timed out and recover.
    GiveUp,
    /// Resend every unconfirmed I-frame.
    Retransmit,
    /// The link was idle for t3: send a TESTFR act.
    SendTestFrame,
    /// Nothing to do.
    Idle,
}

impl LinkSupervisor {
    /// Every timer the link holds is cleared and no counter is running.
    pub open spec fn is_quiet(self) -> bool {
        &&& self.pending_test is None
        &&& self.pending_ack_count == 0
        &&& self.pending_ack_since is None
        &&& self.unacked_since is None
        &&& self.retransmit_attempts == 0
    }

    /// The supervisor's invariant: retransmissions stay within their bound.
    pub open spec fn wf(self) -> bool {
        self.retransmit_attempts <= IEC104_LINK_MAX_RETRANSMIT_ATTEMPTS
    }

    /// A supervisor for a connection established at `now`.
    pub fn new(settings: LinkTimerSettings, auto_start_data_transfer: bool, now: u64) -> (r: Self)
        ensures
            r.wf(),
            r.is_quiet(),
            r.settings == settings,
            r.handshake_started_at == now,
            r.last_activity == now,
            r.last_data_transfer_state == (if auto_start_data_transfer { DataTransferState::Starting } else { DataTransferState::Stopped }),
            r.last_peer_ack_sequence == 0,
            !r.frame_count_recovery_attempted,
    {
        LinkSupervisor {
            settings,
            handshake_started_at: now,
            last_activity: now,
            pending_test: None,
            last_data_transfer_state: if auto_start_data_transfer { DataTransferState::Starting } else { DataTransferState::Stopped },
            unacked_since: None,
            retransmit_attempts: 0,
            last_peer_ack_sequence: 0,
            pending_ack_count: 0,
            pending_ack_since: None,
            frame_count_recovery_attempted: false,
        }
    }

    /// After a recovery that keeps the task running: pending test, acknowledgement
    /// window and retransmission state are cleared.
    pub fn clear_for_recovery(&mut self)
        ensures
            final(self).is_quiet(),
            final(self).wf(),
            final(self).settings == old(self).settings,
            final(self).handshake_started_at == old(self).handshake_started_at,
            final(self).last_activity == old(self).last_activity,
            final(self).last_data_transfer_state == old(self).last_data_transfer_state,
            final(self).last_peer_ack_sequence == old(self).last_peer_ack_sequence,
            final(self).frame_count_recovery_attempted == old(self).frame_count_recovery_attempted,
    {
        self.pending_test = None;
        self.pending_ack_count = 0;
        self.pending_ack_since = None;
        self.unacked_since = None;
        self.retransmit_attempts = 0;
    }

    /// After the TCP connection dropped: everything but the handshake start and activity is reset.
    pub fn clear_for_disconnect(&mut self)
        ensures
            final(self).is_quiet(),
            final(self).wf(),
            final(self).last_peer_ack_sequence == 0,
            !final(self).frame_count_recovery_attempted,
            final(self).settings == old(self).settings,
            final(self).handshake_started_at == old(self).handshake_started_at,
            final(self).last_activity == old(self).last_activity,
            final(self).last_data_transfer_state == old(self).last_data_transfer_state,
    {
        self.clear_for_recovery();
        self.last_peer_ack_sequence = 0;
        self.frame_count_recovery_attempted = false;
    }

    /// After the TCP connection came back at `now`: a fresh link whose handshake starts now.
    pub fn clear_for_reconnect(&mut self, now: u64)
        ensures
            final(self).is_quiet(),
            final(self).wf(),
            final(self).last_peer_ack_sequence == 0,
            !final(self).frame_count_recovery_attempted,
            final(self).handshake_started_at == now,
            final(self).last_activity == now,
            final(self).settings == old(self).settings,
            final(self).last_data_transfer_state == old(self).last_data_transfer_state,
    {
        self.clear_for_disconnect();
        self.handshake_started_at = now;
        self.last_activity = now;
    }

    /// Any data arrived at `now`: the link is alive and a pending test is answered.
    pub fn on_data_received(&mut self, now: u64)
        ensures
            *final(self) == (LinkSupervisor { last_activity: now, pending_test: None, ..*old(self) }),
    {
        self.last_activity = now;
        self.pending_test = None;
    }

    /// A TESTFR con or STARTDT con arrived: no test is pending any more.
    pub fn on_test_confirmed(&mut self)
        ensures
            *final(self) == (LinkSupervisor { pending_test: None, ..*old(self) }),
    {
        self.pending_test = None;
    }

    /// The peer's acknowledged sequence number after a received batch. A new
    /// acknowledgement restarts the t1 clock of what is still unconfirmed; with
    /// nothing unconfirmed the clock stops.
    pub fn on_peer_ack(&mut self, peer_ack_sequence: u16, unconfirmed_count: usize, now: u64)
        requires
            old(self).wf(),
        ensures
            final(self).wf(),
            peer_ack_sequence != old(self).last_peer_ack_sequence ==> *final(self) == (LinkSupervisor {
                last_peer_ack_sequence: peer_ack_sequence,
                retransmit_attempts: 0,
                unacked_since: if unconfirmed_count > 0 { Some(now) } else { None },
                ..*old(self)
            }),
            peer_ack_sequence == old(self).last_peer_ack_sequence && unconfirmed_count == 0 ==> *final(self) == (LinkSupervisor {
                retransmit_attempts: 0,
                unacked_since: None,
                ..*old(self)
            }),
            peer_ack_sequence == old(self).last_peer_ack_sequence && unconfirmed_count > 0 ==> *final(self) == *old(self),
    {
        if peer_ack_sequence != self.last_peer_ack_sequence {
            self.last_peer_ack_sequence = peer_ack_sequence;
            self.retransmit_attempts = 0;
            self.unacked_since = if unconfirmed_count > 0 { Some(now) } else { None };
        } else if unconfirmed_count == 0 {
            self.retransmit_attempts = 0;
            self.unacked_since = None;
        }
    }

    /// Counts `iframe_count` received I-frames towards the w window; true when an
    /// S-frame acknowledgement is due now.
    pub fn on_iframes_received(&mut self, iframe_count: u16, now: u64) -> (send_ack: bool)
        ensures
            iframe_count == 0 ==> *final(self) == *old(self) && !send_ack,
            iframe_count > 0 ==> {
                &&& final(self).pending_ack_count == (if old(self).pending_ack_count + iframe_count > u16::MAX {
                        u16::MAX as int } else { old(self).pending_ack_count + iframe_count })
                &&& final(self).pending_ack_since == (if old(self).pending_ack_since is None { Some(now) } else { old(self).pending_ack_since })
                &&& *final(self) == (LinkSupervisor {
                        pending_ack_count: final(self).pending_ack_count,
                        pending_ack_since: final(self).pending_ack_since,
                        ..*old(self)
                    })
                &&& send_ack == (final(self).pending_ack_count >= old(self).settings.w_value)
            },
    {
        if iframe_count == 0 {
            return false;
        }
        self.pending_ack_count = self.pending_ack_count.saturating_add(iframe_count);
        if self.pending_ack_since.is_none() {
            self.pending_ack_since = Some(now);
        }
        self.pending_ack_count >= self.settings.w_value
    }

    /// An S-frame acknowledging everything received was sent.
    pub fn on_ack_sent(&mut self)
        ensures
            *final(self) == (LinkSupervisor { pending_ack_count: 0, pending_ack_since: None, ..*old(self) }),
    {
        self.pending_ack_count = 0;
        self.pending_ack_since = None;
    }

    /// A delayed (t2) acknowledgement was sent at `now`.
    pub fn on_delayed_ack_sent(&mut self, now: u64)
        ensures
            *final(self) == (LinkSupervisor { pending_ack_count: 0, pending_ack_since: None, last_activity: now, ..*old(self) }),
    {
        self.last_activity = now;
        self.on_ack_sent();
    }

    /// The transport reported that something was sent: the link was active at
    /// `now`, and unconfirmed frames start their t1 clock if it is not running.
    pub fn on_send_activity(&mut self, has_unconfirmed: bool, now: u64)
        ensures
            *final(self) == (LinkSupervisor {
                last_activity: now,
                unacked_since: if has_unconfirmed && old(self).unacked_since is None { Some(now) } else { old(self).unacked_since },
                ..*old(self)
            }),
    {
        self.last_activity = now;
        if has_unconfirmed && self.unacked_since.is_none() {
            self.unacked_since = Some(now);
        }
    }

    /// First part of the once-a-second tick, given the connection's current states.
    pub fn tick(&mut self, transport_state: TransportState, data_transfer_state: DataTransferState, now: u64) -> (r: TickAction)
        requires
            old(self).wf(),
        ensures
            final(self).wf(),
            final(self).last_data_transfer_state == data_transfer_state,
            final(self).handshake_started_at == (if data_transfer_state == DataTransferState::Starting
                && old(self).last_data_transfer_state != DataTransferState::Starting { now } else { old(self).handshake_started_at }),
            final(self).pending_test == (if data_transfer_state != DataTransferState::Started { None } else { old(self).pending_test }),
            final(self).settings == old(self).settings,
            final(self).last_activity == old(self).last_activity,
            final(self).unacked_since == old(self).unacked_since,
            final(self).retransmit_attempts == old(self).retransmit_attempts,
            final(self).pending_ack_count == old(self).pending_ack_count,
            final(self).pending_ack_since == old(self).pending_ack_since,
            final(self).last_peer_ack_sequence == old(self).last_peer_ack_sequence,
            final(self).frame_count_recovery_attempted == old(self).frame_count_recovery_attempted,
            r == (if data_transfer_state == DataTransferState::Starting
                    && expired(final(self).handshake_started_at, now, old(self).settings.t0_seconds) {
                    TickAction::HandshakeTimeout
                } else if data_transfer_state != DataTransferState::Started || transport_state != TransportState::Connected {
                    TickAction::Idle
                } else if old(self).pending_test is Some {
                    if expired(old(self).pending_test->0, now, old(self).settings.t1_seconds) {
                        TickAction::TestFrameTimeout
                    } else {
                        TickAction::Idle
                    }
                } else if old(self).pending_ack_count > 0 && old(self).pending_ack_since is Some
                    && expired(old(self).pending_ack_since->0, now, old(self).settings.t2_seconds) {
                    TickAction::SendDelayedAck
                } else {
                    TickAction::CheckUnconfirmed
                }),
    {
        if data_transfer_state == DataTransferState::Starting
            && self.last_data_transfer_state != DataTransferState::Starting {
            self.handshake_started_at = now;
        }
        if data_transfer_state != DataTransferState::Started {
            self.pending_test = None;
        }
        self.last_data_transfer_state = data_transfer_state;
        if data_transfer_state == DataTransferState::Starting
            && has_expired(self.handshake_started_at, now, self.settings.t0_seconds) {
            return TickAction::HandshakeTimeout;
        }
        if data_transfer_state != DataTransferState::Started || transport_state != TransportState::Connected {
            return TickAction::Idle;
        }
        match self.pending_test {
            Some(sent_at) => {
                if has_expired(sent_at, now, self.settings.t1_seconds) {
                    TickAction::TestFrameTimeout
                } else {
                    TickAction::Idle
                }
            },
            None => {
                if self.pending_ack_count > 0 {
                    match self.pending_ack_since {
                        Some(since) => {
                            if has_expired(since, now, self.settings.t2_seconds) {
                                return TickAction::SendDelayedAck;
                            }
                        },
                        None => {},
                    }
                }
                TickAction::CheckUnconfirmed
            },
        }
    }

    /// Second part of the tick: t1 supervision of the I-frames the peer has not
    /// confirmed, then the t3 idle test.
    pub fn check_unconfirmed(&mut self, unconfirmed_count: usize, now: u64) -> (r: UnconfirmedAction)
        requires
            old(self).wf(),
        ensures
            final(self).wf(),
            unconfirmed_count == 0 ==> *final(self) == (LinkSupervisor { retransmit_attempts: 0, unacked_since: None, ..*old(self) })
                && r == (if expired(old(self).last_activity, now, old(self).settings.t3_seconds) {
                    UnconfirmedAction::SendTestFrame } else { UnconfirmedAction::Idle }),
            unconfirmed_count > 0 ==> {
                let since = if old(self).unacked_since is None { now } else { old(self).unacked_since->0 };
                if !expired(since, now, old(self).settings.t1_seconds) {
                    &&& *final(self) == (LinkSupervisor { unacked_since: Some(since), ..*old(self) })
                    &&& r == (if expired(old(self).last_activity, now, old(self).settings.t3_seconds) {
                        UnconfirmedAction::SendTestFrame } else { UnconfirmedAction::Idle })
                } else if old(self).retransmit_attempts >= IEC104_LINK_MAX_RETRANSMIT_ATTEMPTS {
                    &&& *final(self) == (LinkSupervisor { unacked_since: Some(since), ..*old(self) })
                    &&& r == UnconfirmedAction::GiveUp
                } else {
                    &&& *final(self) == (LinkSupervisor {
                            unacked_since: Some(now),
                            retransmit_attempts: (old(self).retransmit_attempts + 1) as u32,
                            ..*old(self)
                        })
                    &&& r == UnconfirmedAction::Retransmit
                }
            },
    {
        if unconfirmed_count == 0 {
            self.retransmit_attempts = 0;
            self.unacked_since = None;
        } else {
            let since = match self.unacked_since {
                Some(at) => at,
                None => now,
            };
            self.unacked_since = Some(since);
            if has_expired(since, now, self.settings.t1_seconds) {
                if self.retransmit_attempts >= IEC104_LINK_MAX_RETRANSMIT_ATTEMPTS {
                    return UnconfirmedAction::GiveUp;
                }
                self.retransmit_attempts = self.retransmit_attempts + 1;
                self.unacked_since = Some(now);
                return UnconfirmedAction::Retransmit;
            }
        }
        if has_expired(self.last_activity, now, self.settings.t3_seconds) {
            UnconfirmedAction::SendTestFrame
        } else {
            UnconfirmedAction::Idle
        }
    }

    /// The unconfirmed I-frames were resent at `now`.
    pub fn on_retransmitted(&mut self, now: u64)
        ensures
            *final(self) == (LinkSupervisor { last_activity: now, ..*old(self) }),
    {
        self.last_activity = now;
    }

    /// A TESTFR act was sent at `now`; it waits t1 for its confirmation.
    pub fn on_test_sent(&mut self, now: u64)
        ensures
            *final(self) == (LinkSupervisor { last_activity: now, pending_test: Some(now), ..*old(self) }),
    {
        self.last_activity = now;
        self.pending_test = Some(now);
    }

    /// Chooses the recovery after a frame-count error. STOPDT/STARTDT is tried
    /// once per connection when configured; otherwise, and after that, the TCP
    /// connection is re-established.
    pub fn plan_frame_count_recovery(&mut self, strategy: FrameCountRecoveryStrategy) -> (r: RecoveryPlan)
        ensures
            r == (if strategy == FrameCountRecoveryStrategy::StopDtStartDt && !old(self).frame_count_recovery_attempted {
                RecoveryPlan::StopDtStartDt } else { RecoveryPlan::TcpReconnect }),
            *final(self) == (LinkSupervisor {
                frame_count_recovery_attempted: old(self).frame_count_recovery_attempted || r == RecoveryPlan::StopDtStartDt,
                ..*old(self)
            }),
    {
        if strategy == FrameCountRecoveryStrategy::StopDtStartDt && !self.frame_count_recovery_attempted {
            self.frame_count_recovery_attempted = true;
            RecoveryPlan::StopDtStartDt
        } else {
            RecoveryPlan::TcpReconnect
        }
    }

    /// STOPDT was sent and STARTDT is about to be sent at `now`: the sequence
    /// numbers restart, so every counter of the link is reset and the handshake clock restarts.
    pub fn restart_data_transfer(&mut self, now: u64)
        ensures
            final(self).is_quiet(),
            final(self).wf(),
            final(self).last_peer_ack_sequence == 0,
            final(self).handshake_started_at == now,
            final(self).settings == old(self).settings,
            final(self).last_activity == old(self).last_activity,
            final(self).last_data_transfer_state == old(self).last_data_transfer_state,
            final(self).frame_count_recovery_attempted == old(self).frame_count_recovery_attempted,
    {
        self.clear_for_recovery();
        self.handshake_started_at = now;
        self.last_peer_ack_sequence = 0;
    }

    /// What follows an attempt at `now` to restart the data transfer with
    /// STOPDT and STARTDT: when the frames went out the link restarts its
    /// counters and handshake clock; when they could not be sent the link is
    /// cleared and the TCP connection is to be re-established.
    pub fn on_restart_attempt(&mut self, sent: bool, now: u64) -> (r: RestartOutcome)
        ensures
            r == (if sent { RestartOutcome::Restarted } else { RestartOutcome::Reconnect }),
            final(self).is_quiet(),
            final(self).wf(),
            final(self).last_peer_ack_sequence == (if sent { 0 } else { old(self).last_peer_ack_sequence }),
            final(self).handshake_started_at == (if sent { now } else { old(self).handshake_started_at }),
            final(self).settings == old(self).settings,
            final(self).last_activity == old(self).last_activity,
            final(self).last_data_transfer_state == old(self).last_data_transfer_state,
            final(self).frame_count_recovery_attempted == old(self).frame_count_recovery_attempted,
    {
        if sent {
            self.restart_data_transfer(now);
            RestartOutcome::Restarted
        } else {
            self.clear_for_recovery();
            RestartOutcome::Reconnect
        }
    }
}

/// What a link does after an attempt to restart its data transfer.
#[derive(Clone, Copy, Debug, PartialEq, Eq, Structural)]
pub enum RestartOutcome {
    /// STOPDT and STARTDT went out; the data transfer is restarting.
    Restarted,
    /// They could not be sent; the TCP connection is to be re-established.
    Reconnect,
}

/// Common addresses that receive a general interrogation after STARTDT con:
/// the enabled slaves of the link profile, or the station's own address when
/// none is enabled; ascending and each once.
pub open spec fn gi_address_set(slaves: Seq<(u16, bool)>, fallback: u16) -> Set<u16> {
    let enabled = Set::new(|a: u16| exists|i: int| 0 <= i < slaves.len() && slaves[i].1 && slaves[i].0 == a);
    if exists|i: int| 0 <= i < slaves.len() && slaves[i].1 { enabled } else { set![fallback] }
}

pub open spec fn strictly_ascending(s: Seq<u16>) -> bool {
    forall|i: int, j: int| 0 <= i < j < s.len() ==> s[i] < s[j]
}

/// Inserts `a` into an ascending sequence without duplicates.
fn insert_ascending(v: &mut Vec<u16>, a: u16)
    requires
        strictly_ascending(old(v)@),
    ensures
        strictly_ascending(final(v)@),
        final(v)@.to_set() == old(v)@.to_set().insert(a),
{
    let n = v.len();
    let mut i: usize = 0;
    while i < n && v[i] < a
        invariant
            n == v@.len(),
            i <= n,
            forall|j: int| 0 <= j < i ==> v@[j] < a,
        decreases n - i,
    {
        i = i + 1;
    }
    if i < n && v[i] == a {
        assert(v@.to_set().insert(a) =~= v@.to_set()) by {
            assert(v@.contains(a) ) by { assert(v@[i as int] == a); }
        }
        return;
    }
    let ghost before = v@;
    v.insert(i, a);
    assert(v@ =~= before.subrange(0, i as int).push(a) + before.subrange(i as int, n as int));
    assert forall|p: int, q: int| 0 <= p < q < v@.len() implies v@[p] < v@[q] by {
        if q < i {
        } else if q == i {
        } else if p < i {
            assert(before[p] < a);
            assert(a < before[q - 1]) by {
                assert(i < n);
                assert(before[i as int] > a);
                if q - 1 > i { assert(before[i as int] < before[q - 1]); }
            }
        } else if p == i {
            assert(before[i as int] > a);
            if q - 1 > i { assert(before[i as int] < before[q - 1]); }
        } else {
        }
    }
    assert(v@.to_set() =~= before.to_set().insert(a)) by {
        assert forall|x: u16| v@.to_set().contains(x) <==> before.to_set().insert(a).contains(x) by {
            if v@.contains(x) {
                let k = choose|k: int| 0 <= k < v@.len() && v@[k] == x;
                if k < i { assert(before[k] == x); }
                else if k > i { assert(before[k - 1] == x); }
            }
            if before.contains(x) {
                let k = choose|k: int| 0 <= k < before.len() && before[k] == x;
                if k < i { assert(v@[k] == x); } else { assert(v@[k + 1] == x); }
            }
            if x == a { assert(v@[i as int] == a); }
        }
    }
}

/// The common addresses to interrogate after STARTDT con. Each pair of
/// `slaves` is a slave's common address and whether it is enabled.
pub fn auto_gi_common_addresses(slaves: &Vec<(u16, bool)>, fallback: u16) -> (r: Vec<u16>)
    ensures
        strictly_ascending(r@),
        r@.to_set() == gi_address_set(slaves@, fallback),
{
    let mut out: Vec<u16> = Vec::new();
    let mut i: usize = 0;
    let mut any = false;
    while i < slaves.len()
        invariant
            i <= slaves@.len(),
            strictly_ascending(out@),
            any == exists|k: int| 0 <= k < i && slaves@[k].1,
            forall|x: u16| out@.to_set().contains(x) <==> exists|k: int| 0 <= k < i && slaves@[k].1 && slaves@[k].0 == x,
        decreases slaves@.len() - i,
    {
        let (address, enabled) = slaves[i];
        if enabled {
            let ghost prev = out@;
            insert_ascending(&mut out, address);
            any = true;
            assert forall|x: u16| out@.to_set().contains(x) <==> exists|k: int| 0 <= k < i + 1 && slaves@[k].1 && slaves@[k].0 == x by {
                if out@.to_set().contains(x) && x != address {
                    assert(prev.to_set().contains(x));
                }
                if x == address { assert(slaves@[i as int].1 && slaves@[i as int].0 == x); }
                if exists|k: int| 0 <= k < i + 1 && slaves@[k].1 && slaves@[k].0 == x {
                    let k = choose|k: int| 0 <= k < i + 1 && slaves@[k].1 && slaves@[k].0 == x;
                    if k < i { assert(prev.to_set().contains(x)); }
                }
            }
        } else {
            assert forall|x: u16| out@.to_set().contains(x) <==> exists|k: int| 0 <= k < i + 1 && slaves@[k].1 && slaves@[k].0 == x by {
                if exists|k: int| 0 <= k < i + 1 && slaves@[k].1 && slaves@[k].0 == x {
                    let k = choose|k: int| 0 <= k < i + 1 && slaves@[k].1 && slaves@[k].0 == x;
                    assert(k < i);
                }
            }
        }
        i = i + 1;
    }
    if !any {
        let mut single: Vec<u16> = Vec::new();
        single.push(fallback);
        assert(single@.to_set() =~= set![fallback]) by {
            assert(single@[0] == fallback);
        }
        return single;
    }
    assert(out@.to_set() =~= gi_address_set(slaves@, fallback));
    out
}

} // verus!
