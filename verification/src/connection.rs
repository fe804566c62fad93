//! The record of a master connection, how link events change it, and the
//! reservation of connection targets that keeps one slave from being
//! connected twice.

use vstd::prelude::*;
use vstd::string::*;

use crate::pending::{of_other_connection, remove_pending_commands_for_connection, PendingCommand};
use crate::seqs::lemma_filter_take_step;
use crate::supervision::{DataTransferState, LinkSupervisor, TransportState};
use crate::strutil::str_equals;
use crate::text::{join2, join3};

verus! {

/// A master connection as the station sees it.
#[derive(Clone, Debug)]
pub struct ConnectionInfo {
    pub id: String,
    pub station_id: String,
    pub profile_id: Option<i64>,
    /// The slave's socket address in its canonical text form.
    pub remote_addr: String,
    pub transport_state: TransportState,
    pub data_transfer_state: DataTransferState,
    pub reconnecting: bool,
    pub reconnect_attempts: u32,
    pub max_reconnect_attempts: u32,
    /// When the TCP connection was (re)established, in Unix milliseconds.
    pub connected_at: Option<i64>,
    pub last_clock_sync_at: Option<i64>,
    pub tx_apdu_count: u64,
    pub rx_apdu_count: u64,
    pub tx_bytes: u64,
    pub rx_bytes: u64,
    pub retransmit_count: u64,
}

/// What happened on a connection.
#[derive(Clone, Copy, Debug, PartialEq, Eq, Structural)]
pub enum LinkEvent {
    /// The TCP connection is up; `is_reconnected` when it had been up before.
    Connected { is_reconnected: bool, now_ms: i64 },
    /// The TCP connection dropped; `will_reconnect` when automatic reconnection is on.
    Disconnected { will_reconnect: bool },
    /// An automatic reconnection attempt failed.
    ReconnectAttemptFailed { attempt: u32, max_attempts: u32 },
    /// Automatic reconnection gave up.
    ReconnectExhausted { attempts: u32, max_attempts: u32 },
    /// The transport reported an error.
    NetworkError,
    /// STARTDT con received, or STARTDT act received and confirmed.
    DataTransferStarted,
    /// STOPDT act or con received.
    DataTransferStopped,
    /// A timer expired: handshake (t0), test frame or unconfirmed I-frames (t1).
    LinkTimeout,
    /// A frame-count error, or an acknowledgement or retransmission could not be sent.
    LinkFailure,
    /// STARTDT was sent again to restart the data transfer.
    DataTransferRestarting,
    /// The protocol state is reset and the TCP connection re-established.
    Recovering,
}

pub open spec fn start_state(auto_start: bool) -> DataTransferState {
    if auto_start { DataTransferState::Starting } else { DataTransferState::Stopped }
}

/// The link fields after `event`; other fields stay.
pub open spec fn event_applied(old_info: ConnectionInfo, new_info: ConnectionInfo, event: LinkEvent, auto_start: bool) -> bool {
    &&& new_info.id == old_info.id
    &&& new_info.station_id == old_info.station_id
    &&& new_info.profile_id == old_info.profile_id
    &&& new_info.remote_addr == old_info.remote_addr
    &&& new_info.last_clock_sync_at == old_info.last_clock_sync_at
    &&& new_info.tx_apdu_count == old_info.tx_apdu_count
    &&& new_info.rx_apdu_count == old_info.rx_apdu_count
    &&& new_info.tx_bytes == old_info.tx_bytes
    &&& new_info.rx_bytes == old_info.rx_bytes
    &&& new_info.retransmit_count == old_info.retransmit_count
    &&& match event {
        LinkEvent::Connected { is_reconnected, now_ms } => {
            &&& new_info.transport_state == TransportState::Connected
            &&& new_info.data_transfer_state == (if is_reconnected { start_state(auto_start) } else { old_info.data_transfer_state })
            &&& !new_info.reconnecting
            &&& new_info.reconnect_attempts == 0
            &&& new_info.max_reconnect_attempts == old_info.max_reconnect_attempts
            &&& new_info.connected_at == (if is_reconnected { Some(now_ms) } else { old_info.connected_at })
        },
        LinkEvent::Disconnected { will_reconnect } => {
            &&& new_info.transport_state == (if will_reconnect { TransportState::Connecting } else { TransportState::Disconnected })
            &&& new_info.data_transfer_state == (if will_reconnect { start_state(auto_start) } else { DataTransferState::Stopped })
            &&& new_info.reconnecting == will_reconnect
            &&& new_info.reconnect_attempts == 0
            &&& new_info.max_reconnect_attempts == old_info.max_reconnect_attempts
            &&& new_info.connected_at == old_info.connected_at
        },
        LinkEvent::ReconnectAttemptFailed { attempt, max_attempts } => {
            &&& new_info.transport_state == TransportState::Connecting
            &&& new_info.data_transfer_state == start_state(auto_start)
            &&& new_info.reconnecting
            &&& new_info.reconnect_attempts == attempt
            &&& new_info.max_reconnect_attempts == max_attempts
            &&& new_info.connected_at == old_info.connected_at
        },
        LinkEvent::ReconnectExhausted { attempts, max_attempts } => {
            &&& new_info.transport_state == TransportState::Error
            &&& new_info.data_transfer_state == DataTransferState::Error
            &&& !new_info.reconnecting
            &&& new_info.reconnect_attempts == attempts
            &&& new_info.max_reconnect_attempts == max_attempts
            &&& new_info.connected_at == old_info.connected_at
        },
        LinkEvent::NetworkError => {
            &&& new_info.transport_state == TransportState::Error
            &&& new_info.data_transfer_state == DataTransferState::Error
            &&& new_info.reconnecting == old_info.reconnecting
            &&& new_info.reconnect_attempts == old_info.reconnect_attempts
            &&& new_info.max_reconnect_attempts == old_info.max_reconnect_attempts
            &&& new_info.connected_at == old_info.connected_at
        },
        LinkEvent::DataTransferStarted => {
            &&& new_info.transport_state == TransportState::Connected
            &&& new_info.data_transfer_state == DataTransferState::Started
            &&& new_info.reconnecting == old_info.reconnecting
            &&& new_info.reconnect_attempts == old_info.reconnect_attempts
            &&& new_info.max_reconnect_attempts == old_info.max_reconnect_attempts
            &&& new_info.connected_at == old_info.connected_at
        },
        LinkEvent::Recovering => {
            &&& new_info.transport_state == TransportState::Connecting
            &&& new_info.data_transfer_state == start_state(auto_start)
            &&& new_info.reconnecting
            &&& new_info.reconnect_attempts == 0
            &&& new_info.max_reconnect_attempts == old_info.max_reconnect_attempts
            &&& new_info.connected_at == old_info.connected_at
        },
        _ => {
            &&& new_info.transport_state == old_info.transport_state
            &&& new_info.data_transfer_state == (match event {
                LinkEvent::DataTransferStopped => DataTransferState::Stopped,
                LinkEvent::LinkTimeout => DataTransferState::Timeout,
                LinkEvent::LinkFailure => DataTransferState::Error,
                _ => DataTransferState::Starting,
            })
            &&& new_info.reconnecting == old_info.reconnecting
            &&& new_info.reconnect_attempts == old_info.reconnect_attempts
            &&& new_info.max_reconnect_attempts == old_info.max_reconnect_attempts
            &&& new_info.connected_at == old_info.connected_at
        },
    }
}

impl ConnectionInfo {
    /// The record of a connection just established by the master.
    /// `start_frame_len` is the length of the STARTDT act sent on connect, if one was sent.
    pub fn new(
        id: String,
        station_id: String,
        profile_id: Option<i64>,
        remote_addr: String,
        auto_reconnect: bool,
        retry_count: u32,
        start_frame_len: Option<u64>,
        now_ms: i64,
    ) -> (r: Self)
        ensures
            r.id == id,
            r.station_id == station_id,
            r.profile_id == profile_id,
            r.remote_addr == remote_addr,
            r.transport_state == TransportState::Connected,
            r.data_transfer_state == start_state(start_frame_len is Some),
            !r.reconnecting,
            r.reconnect_attempts == 0,
            r.max_reconnect_attempts == (if auto_reconnect { retry_count } else { 0 }),
            r.connected_at == Some(now_ms),
            r.last_clock_sync_at is None,
            r.tx_apdu_count == (if start_frame_len is Some { 1u64 } else { 0u64 }),
            r.tx_bytes == (match start_frame_len { Some(n) => n, None => 0 }),
            r.rx_apdu_count == 0,
            r.rx_bytes == 0,
            r.retransmit_count == 0,
    {
        let started = start_frame_len.is_some();
        ConnectionInfo {
            id,
            station_id,
            profile_id,
            remote_addr,
            transport_state: TransportState::Connected,
            data_transfer_state: if started { DataTransferState::Starting } else { DataTransferState::Stopped },
            reconnecting: false,
            reconnect_attempts: 0,
            max_reconnect_attempts: if auto_reconnect { retry_count } else { 0 },
            connected_at: Some(now_ms),
            last_clock_sync_at: None,
            tx_apdu_count: if started { 1 } else { 0 },
            rx_apdu_count: 0,
            tx_bytes: match start_frame_len { Some(n) => n, None => 0 },
            rx_bytes: 0,
            retransmit_count: 0,
        }
    }

    /// Applies a link event; `auto_start` is whether the connection starts data transfer by itself.
    pub fn apply_event(&mut self, event: LinkEvent, auto_start: bool)
        ensures
            event_applied(*old(self), *final(self), event, auto_start),
    {
        let restart = if auto_start { DataTransferState::Starting } else { DataTransferState::Stopped };
        match event {
            LinkEvent::Connected { is_reconnected, now_ms } => {
                self.transport_state = TransportState::Connected;
                if is_reconnected {
                    self.data_transfer_state = restart;
                    self.connected_at = Some(now_ms);
                }
                self.reconnecting = false;
                self.reconnect_attempts = 0;
            },
            LinkEvent::Disconnected { will_reconnect } => {
                if will_reconnect {
                    self.transport_state = TransportState::Connecting;
                    self.data_transfer_state = restart;
                } else {
                    self.transport_state = TransportState::Disconnected;
                    self.data_transfer_state = DataTransferState::Stopped;
                }
                self.reconnecting = will_reconnect;
                self.reconnect_attempts = 0;
            },
            LinkEvent::ReconnectAttemptFailed { attempt, max_attempts } => {
                self.transport_state = TransportState::Connecting;
                self.data_transfer_state = restart;
                self.reconnecting = true;
                self.reconnect_attempts = attempt;
                self.max_reconnect_attempts = max_attempts;
            },
            LinkEvent::ReconnectExhausted { attempts, max_attempts } => {
                self.transport_state = TransportState::Error;
                self.data_transfer_state = DataTransferState::Error;
                self.reconnecting = false;
                self.reconnect_attempts = attempts;
                self.max_reconnect_attempts = max_attempts;
            },
            LinkEvent::NetworkError => {
                self.transport_state = TransportState::Error;
                self.data_transfer_state = DataTransferState::Error;
            },
            LinkEvent::DataTransferStarted => {
                self.transport_state = TransportState::Connected;
                self.data_transfer_state = DataTransferState::Started;
            },
            LinkEvent::DataTransferStopped => {
                self.data_transfer_state = DataTransferState::Stopped;
            },
            LinkEvent::LinkTimeout => {
                self.data_transfer_state = DataTransferState::Timeout;
            },
            LinkEvent::LinkFailure => {
                self.data_transfer_state = DataTransferState::Error;
            },
            LinkEvent::DataTransferRestarting => {
                self.data_transfer_state = DataTransferState::Starting;
            },
            LinkEvent::Recovering => {
                self.transport_state = TransportState::Connecting;
                self.data_transfer_state = restart;
                self.reconnecting = true;
                self.reconnect_attempts = 0;
            },
        }
    }

    /// Counts frames and bytes sent, saturating at the counters' maximum.
    pub fn record_sent(&mut self, frames: u64, bytes: u64)
        ensures
            final(self).tx_apdu_count == (if old(self).tx_apdu_count + frames > u64::MAX { u64::MAX as int } else { old(self).tx_apdu_count + frames }),
            final(self).tx_bytes == (if old(self).tx_bytes + bytes > u64::MAX { u64::MAX as int } else { old(self).tx_bytes + bytes }),
            final(self).rx_apdu_count == old(self).rx_apdu_count,
            final(self).rx_bytes == old(self).rx_bytes,
            final(self).transport_state == old(self).transport_state,
            final(self).data_transfer_state == old(self).data_transfer_state,
    {
        self.tx_apdu_count = self.tx_apdu_count.saturating_add(frames);
        self.tx_bytes = self.tx_bytes.saturating_add(bytes);
    }

    /// Counts bytes and frames received, saturating at the counters' maximum.
    pub fn record_received(&mut self, frames: u64, bytes: u64)
        ensures
            final(self).rx_apdu_count == (if old(self).rx_apdu_count + frames > u64::MAX { u64::MAX as int } else { old(self).rx_apdu_count + frames }),
            final(self).rx_bytes == (if old(self).rx_bytes + bytes > u64::MAX { u64::MAX as int } else { old(self).rx_bytes + bytes }),
            final(self).tx_apdu_count == old(self).tx_apdu_count,
            final(self).tx_bytes == old(self).tx_bytes,
            final(self).transport_state == old(self).transport_state,
            final(self).data_transfer_state == old(self).data_transfer_state,
    {
        self.rx_apdu_count = self.rx_apdu_count.saturating_add(frames);
        self.rx_bytes = self.rx_bytes.saturating_add(bytes);
    }
}

/// Two connection targets conflict when they name the same slave address and
/// either their profiles are equal or one of them has no profile.
pub open spec fn spec_targets_conflict(left_addr: Seq<char>, left_profile: Option<i64>, right_addr: Seq<char>, right_profile: Option<i64>) -> bool {
    left_addr == right_addr && (left_profile == right_profile || left_profile is None || right_profile is None)
}

/// Whether two connection targets would reach the same slave.
pub fn targets_conflict(left_addr: &str, left_profile: Option<i64>, right_addr: &str, right_profile: Option<i64>) -> (r: bool)
    ensures
        r == spec_targets_conflict(left_addr@, left_profile, right_addr@, right_profile),
{
    str_equals(left_addr, right_addr) && (left_profile == right_profile || left_profile.is_none() || right_profile.is_none())
}

/// A slave address and profile for which a connection is being established.
#[derive(Clone, Debug)]
pub struct ConnectionTarget {
    pub addr: String,
    pub profile_id: Option<i64>,
}

pub open spec fn target_view(t: ConnectionTarget) -> (Seq<char>, Option<i64>) {
    (t.addr@, t.profile_id)
}

/// Why a connection target could not be reserved.
#[derive(Clone, Debug)]
pub enum ReserveError {
    /// An active connection already reaches the slave; its id is given.
    ActiveSession { addr: String, existing_id: String },
    /// Another connection to the slave is being established.
    Connecting { addr: String },
}

impl ReserveError {
    /// The message shown to the user.
    pub fn message(&self) -> (r: String)
        ensures
            r@ == (match *self {
                ReserveError::ActiveSession { addr, existing_id } =>
                    "重复连接被拒绝: "@ + addr@ + " 已存在活动会话 "@ + existing_id@,
                ReserveError::Connecting { addr } =>
                    "重复连接被拒绝: "@ + addr@ + " 正在建立连接"@,
            }),
    {
        match self {
            ReserveError::ActiveSession { addr, existing_id } => {
                let head = join3("重复连接被拒绝: ", addr.as_str(), " 已存在活动会话 ");
                join2(head.as_str(), existing_id.as_str())
            },
            ReserveError::Connecting { addr } => join3("重复连接被拒绝: ", addr.as_str(), " 正在建立连接"),
        }
    }
}

pub open spec fn conflicts_with_connection(c: ConnectionInfo, addr: Seq<char>, profile: Option<i64>) -> bool {
    spec_targets_conflict(c.remote_addr@, c.profile_id, addr, profile)
}

pub open spec fn conflicts_with_target(t: ConnectionTarget, addr: Seq<char>, profile: Option<i64>) -> bool {
    spec_targets_conflict(t.addr@, t.profile_id, addr, profile)
}

/// What reserving `(addr, profile)` gives: refused with the first active
/// connection that conflicts with it, or else refused when another
/// reservation conflicts with it, the reservations unchanged either way; or
/// else the target appended to the reservations.
pub open spec fn reserved_as(
    connections: Seq<ConnectionInfo>,
    before: Seq<ConnectionTarget>,
    after: Seq<ConnectionTarget>,
    addr: Seq<char>,
    profile: Option<i64>,
    r: Result<(), ReserveError>,
) -> bool {
    &&& (exists|i: int| 0 <= i < connections.len() && conflicts_with_connection(#[trigger] connections[i], addr, profile)) ==> {
        let i = choose|i: int| 0 <= i < connections.len() && conflicts_with_connection(#[trigger] connections[i], addr, profile)
            && forall|j: int| 0 <= j < i ==> !conflicts_with_connection(#[trigger] connections[j], addr, profile);
        &&& r matches Err(ReserveError::ActiveSession { addr: a, existing_id })
        &&& a@ == addr
        &&& existing_id@ == connections[i].id@
        &&& after == before
    }
    &&& !(exists|i: int| 0 <= i < connections.len() && conflicts_with_connection(#[trigger] connections[i], addr, profile))
        && (exists|i: int| 0 <= i < before.len() && conflicts_with_target(#[trigger] before[i], addr, profile)) ==> {
        &&& r matches Err(ReserveError::Connecting { addr: a })
        &&& a@ == addr
        &&& after == before
    }
    &&& !(exists|i: int| 0 <= i < connections.len() && conflicts_with_connection(#[trigger] connections[i], addr, profile))
        && !(exists|i: int| 0 <= i < before.len() && conflicts_with_target(#[trigger] before[i], addr, profile)) ==> {
        &&& r is Ok
        &&& after.len() == before.len() + 1
        &&& after.drop_last() == before
        &&& after.last().addr@ == addr
        &&& after.last().profile_id == profile
    }
}

/// Reserves `(slave_addr, profile_id)` for a connection being established.
/// Refused when an active connection or another reservation conflicts with it;
/// otherwise the target is appended to the reservations.
pub fn reserve_connection_target(
    connections: &Vec<ConnectionInfo>,
    connecting_targets: &mut Vec<ConnectionTarget>,
    slave_addr: &str,
    profile_id: Option<i64>,
) -> (r: Result<(), ReserveError>)
    ensures
        reserved_as(connections@, old(connecting_targets)@, final(connecting_targets)@, slave_addr@, profile_id, r),
{
    let mut i: usize = 0;
    while i < connections.len()
        invariant
            i <= connections@.len(),
            connecting_targets@ == old(connecting_targets)@,
            forall|j: int| 0 <= j < i ==> !conflicts_with_connection(#[trigger] connections@[j], slave_addr@, profile_id),
        decreases connections@.len() - i,
    {
        let c = &connections[i];
        if targets_conflict(c.remote_addr.as_str(), c.profile_id, slave_addr, profile_id) {
            proof {
                let k = choose|k: int| 0 <= k < connections@.len() && conflicts_with_connection(#[trigger] connections@[k], slave_addr@, profile_id)
                    && forall|j: int| 0 <= j < k ==> !conflicts_with_connection(#[trigger] connections@[j], slave_addr@, profile_id);
                if k < i { assert(!conflicts_with_connection(connections@[k], slave_addr@, profile_id)); }
                if k > i { assert(!conflicts_with_connection(connections@[i as int], slave_addr@, profile_id)); }
            }
            return Err(ReserveError::ActiveSession { addr: String::from_str(slave_addr), existing_id: c.id.clone() });
        }
        i = i + 1;
    }
    let mut k: usize = 0;
    while k < connecting_targets.len()
        invariant
            k <= connecting_targets@.len(),
            connecting_targets@ == old(connecting_targets)@,
            forall|j: int| 0 <= j < connections@.len() ==> !conflicts_with_connection(#[trigger] connections@[j], slave_addr@, profile_id),
            forall|j: int| 0 <= j < k ==> !conflicts_with_target(#[trigger] connecting_targets@[j], slave_addr@, profile_id),
        decreases connecting_targets@.len() - k,
    {
        let t = &connecting_targets[k];
        if targets_conflict(t.addr.as_str(), t.profile_id, slave_addr, profile_id) {
            return Err(ReserveError::Connecting { addr: String::from_str(slave_addr) });
        }
        k = k + 1;
    }
    let ghost before = connecting_targets@;
    connecting_targets.push(ConnectionTarget { addr: String::from_str(slave_addr), profile_id });
    assert(connecting_targets@.drop_last() =~= before);
    Ok(())
}

/// Why a master does not start connecting to a slave.
#[derive(Clone, Debug)]
pub enum ConnectRefusal {
    /// The master station is not running.
    NotRunning,
    /// The target is taken by another connection (see `reserve_connection_target`).
    Taken(ReserveError),
}

impl ConnectRefusal {
    /// The message shown to the user.
    pub fn message(&self) -> (r: String)
        ensures
            r@ == (match *self {
                ConnectRefusal::NotRunning => "主站未启动，无法连接到从站"@,
                ConnectRefusal::Taken(e) => match e {
                    ReserveError::ActiveSession { addr, existing_id } =>
                        "重复连接被拒绝: "@ + addr@ + " 已存在活动会话 "@ + existing_id@,
                    ReserveError::Connecting { addr } =>
                        "重复连接被拒绝: "@ + addr@ + " 正在建立连接"@,
                },
            }),
    {
        match self {
            ConnectRefusal::NotRunning => String::from_str("主站未启动，无法连接到从站"),
            ConnectRefusal::Taken(e) => e.message(),
        }
    }
}

/// The checks before a master connects to a slave: the station must be
/// running, then the target is reserved as `reserve_connection_target` does.
pub fn prepare_connection_target(
    station_running: bool,
    connections: &Vec<ConnectionInfo>,
    connecting_targets: &mut Vec<ConnectionTarget>,
    slave_addr: &str,
    profile_id: Option<i64>,
) -> (r: Result<(), ConnectRefusal>)
    ensures
        !station_running ==> (r matches Err(ConnectRefusal::NotRunning) && final(connecting_targets)@ == old(connecting_targets)@),
        station_running ==> match r {
            Err(ConnectRefusal::NotRunning) => false,
            Err(ConnectRefusal::Taken(e)) => reserved_as(connections@, old(connecting_targets)@, final(connecting_targets)@,
                slave_addr@, profile_id, Err(e)),
            Ok(()) => reserved_as(connections@, old(connecting_targets)@, final(connecting_targets)@, slave_addr@, profile_id, Ok(())),
        },
{
    if !station_running {
        return Err(ConnectRefusal::NotRunning);
    }
    match reserve_connection_target(connections, connecting_targets, slave_addr, profile_id) {
        Ok(()) => Ok(()),
        Err(e) => Err(ConnectRefusal::Taken(e)),
    }
}

/// Drops the reservation of `(slave_addr, profile_id)`: the first equal
/// reservation is removed, the last one taking its place.
pub fn release_connection_target(connecting_targets: &mut Vec<ConnectionTarget>, slave_addr: &str, profile_id: Option<i64>)
    ensures
        (forall|i: int| 0 <= i < old(connecting_targets)@.len() ==>
            #[trigger] target_view(old(connecting_targets)@[i]) != (slave_addr@, profile_id))
            ==> final(connecting_targets)@ == old(connecting_targets)@,
        forall|i: int| 0 <= i < old(connecting_targets)@.len()
            && target_view(old(connecting_targets)@[i]) == (slave_addr@, profile_id)
            && (forall|j: int| 0 <= j < i ==> #[trigger] target_view(old(connecting_targets)@[j]) != (slave_addr@, profile_id))
            ==> final(connecting_targets)@ == old(connecting_targets)@.update(i, old(connecting_targets)@.last()).drop_last(),
{
    let mut i: usize = 0;
    while i < connecting_targets.len()
        invariant
            i <= connecting_targets@.len(),
            connecting_targets@ == old(connecting_targets)@,
            forall|j: int| 0 <= j < i ==> #[trigger] target_view(connecting_targets@[j]) != (slave_addr@, profile_id),
        decreases connecting_targets@.len() - i,
    {
        let same_addr = str_equals(connecting_targets[i].addr.as_str(), slave_addr);
        if same_addr && connecting_targets[i].profile_id == profile_id {
            let ghost before = connecting_targets@;
            assert(target_view(before[i as int]) == (slave_addr@, profile_id));
            connecting_targets.swap_remove(i);
            proof {
                assert forall|p: int| 0 <= p < before.len()
                    && target_view(before[p]) == (slave_addr@, profile_id)
                    && (forall|j: int| 0 <= j < p ==> #[trigger] target_view(before[j]) != (slave_addr@, profile_id))
                    implies connecting_targets@ == before.update(p, before.last()).drop_last() by {
                    if p < i { assert(target_view(before[p]) != (slave_addr@, profile_id)); }
                    if p > i { assert(target_view(before[i as int]) != (slave_addr@, profile_id)); }
                    assert(connecting_targets@ =~= before.update(p, before.last()).drop_last());
                }
            }
            return;
        }
        i = i + 1;
    }
}

/// A reservation that succeeded and is released again leaves the reservations as they were.
pub proof fn reserve_then_release_restores(before: Seq<ConnectionTarget>, after: Seq<ConnectionTarget>, addr: Seq<char>, profile_id: Option<i64>)
    requires
        !(exists|i: int| 0 <= i < before.len() && conflicts_with_target(#[trigger] before[i], addr, profile_id)),
        after.len() == before.len() + 1,
        after.drop_last() == before,
        after.last().addr@ == addr,
        after.last().profile_id == profile_id,
    ensures
        target_view(after[after.len() - 1]) == (addr, profile_id),
        forall|j: int| 0 <= j < after.len() - 1 ==> #[trigger] target_view(after[j]) != (addr, profile_id),
        after.update(after.len() - 1, after.last()).drop_last() == before,
{
    assert forall|j: int| 0 <= j < after.len() - 1 implies #[trigger] target_view(after[j]) != (addr, profile_id) by {
        assert(after[j] == before[j]);
        assert(!conflicts_with_target(before[j], addr, profile_id));
    }
    assert(after.update(after.len() - 1, after.last()) =~= after);
}

/// How the transport of a new connection retries: as many attempts as asked
/// when reconnecting is on, else none; and the pause between attempts, in
/// milliseconds, at least one second.
pub fn reconnect_policy(auto_reconnect: bool, retry_count: u32, retry_interval_seconds: u32) -> (r: (u32, u64))
    ensures
        r.0 == (if auto_reconnect { retry_count } else { 0 }),
        r.1 == (if retry_interval_seconds < 1 { 1 } else { retry_interval_seconds }) * 1000,
{
    let attempts = if auto_reconnect { retry_count } else { 0 };
    let seconds: u64 = if retry_interval_seconds < 1 { 1 } else { retry_interval_seconds as u64 };
    (attempts, seconds * 1000)
}

/// What a manual STARTDT (`start`) or STOPDT request does on a connection.
#[derive(Clone, Copy, Debug, PartialEq, Eq, Structural)]
pub enum ManualTransferStep {
    /// The connection is unknown or its transport is down.
    NotConnected,
    /// The data transfer is already started or starting (stopped or stopping).
    AlreadyThere,
    /// The frame is to be sent.
    SendFrame,
}

pub open spec fn spec_manual_step(conn: Option<ConnectionInfo>, start: bool) -> ManualTransferStep {
    match conn {
        None => ManualTransferStep::NotConnected,
        Some(c) => if c.transport_state != TransportState::Connected {
            ManualTransferStep::NotConnected
        } else if (start && (c.data_transfer_state == DataTransferState::Started || c.data_transfer_state == DataTransferState::Starting))
            || (!start && (c.data_transfer_state == DataTransferState::Stopped || c.data_transfer_state == DataTransferState::Stopping)) {
            ManualTransferStep::AlreadyThere
        } else {
            ManualTransferStep::SendFrame
        },
    }
}

/// Decides a manual STARTDT (`start`) or STOPDT request on a connection.
pub fn plan_manual_data_transfer(conn: Option<&ConnectionInfo>, start: bool) -> (r: ManualTransferStep)
    ensures
        r == spec_manual_step(match conn { Some(c) => Some(*c), None => None }, start),
{
    match conn {
        None => ManualTransferStep::NotConnected,
        Some(c) => {
            if c.transport_state != TransportState::Connected {
                return ManualTransferStep::NotConnected;
            }
            let there = if start {
                c.data_transfer_state == DataTransferState::Started || c.data_transfer_state == DataTransferState::Starting
            } else {
                c.data_transfer_state == DataTransferState::Stopped || c.data_transfer_state == DataTransferState::Stopping
            };
            if there { ManualTransferStep::AlreadyThere } else { ManualTransferStep::SendFrame }
        },
    }
}

impl ConnectionInfo {
    /// A manual STARTDT (`start`) or STOPDT is about to be sent.
    pub fn begin_manual_transfer(&mut self, start: bool)
        ensures
            *final(self) == (ConnectionInfo {
                data_transfer_state: if start { DataTransferState::Starting } else { DataTransferState::Stopping },
                ..*old(self)
            }),
    {
        self.data_transfer_state = if start { DataTransferState::Starting } else { DataTransferState::Stopping };
    }

    /// The manual frame was sent (its length given) or could not be.
    pub fn finish_manual_transfer(&mut self, sent_len: Option<u64>)
        ensures
            sent_len is None ==> *final(self) == (ConnectionInfo { data_transfer_state: DataTransferState::Error, ..*old(self) }),
            sent_len matches Some(n) ==> *final(self) == (ConnectionInfo {
                tx_apdu_count: if old(self).tx_apdu_count == u64::MAX { u64::MAX } else { (old(self).tx_apdu_count + 1) as u64 },
                tx_bytes: if old(self).tx_bytes + n > u64::MAX { u64::MAX } else { (old(self).tx_bytes + n) as u64 },
                ..*old(self)
            }),
    {
        match sent_len {
            None => {
                self.data_transfer_state = DataTransferState::Error;
            },
            Some(n) => {
                self.tx_apdu_count = self.tx_apdu_count.saturating_add(1);
                self.tx_bytes = self.tx_bytes.saturating_add(n);
            },
        }
    }
}

/// The U-frames of the link layer.
#[derive(Clone, Copy, Debug, PartialEq, Eq, Structural)]
pub enum UFrameKind {
    StartDtAct,
    StartDtCon,
    StopDtAct,
    StopDtCon,
    TestFrAct,
    TestFrCon,
}

/// What the master does on receiving a U-frame: the message it logs, the
/// U-frame it answers with and the message logged when that is sent, the event
/// it applies to the connection, whether an outstanding test frame counts as
/// confirmed, whether automatic interrogation may start, and the runtime hint
/// it emits.
#[derive(Clone, Copy, Debug)]
pub struct UFrameReaction {
    pub received_text: &'static str,
    pub reply: Option<(UFrameKind, &'static str)>,
    pub event: Option<LinkEvent>,
    pub clears_test: bool,
    pub auto_gi: bool,
    pub hint: Option<&'static str>,
}

pub open spec fn spec_received_text(kind: UFrameKind) -> Seq<char> {
    match kind {
        UFrameKind::StartDtAct => "收到 STARTDT_ACT"@,
        UFrameKind::StartDtCon => "收到 STARTDT_CON"@,
        UFrameKind::StopDtAct => "收到 STOPDT_ACT"@,
        UFrameKind::StopDtCon => "收到 STOPDT_CON"@,
        UFrameKind::TestFrAct => "收到 TESTFR_ACT"@,
        UFrameKind::TestFrCon => "收到 TESTFR_CON"@,
    }
}

/// The answer to a U-frame and the message its sending is logged with.
pub open spec fn spec_reply(kind: UFrameKind) -> Option<(UFrameKind, Seq<char>)> {
    match kind {
        UFrameKind::StartDtAct => Some((UFrameKind::StartDtCon, "发送 STARTDT_CON"@)),
        UFrameKind::StopDtAct => Some((UFrameKind::StopDtCon, "发送 STOPDT_CON"@)),
        UFrameKind::TestFrAct => Some((UFrameKind::TestFrCon, "发送 TESTFR_CON"@)),
        _ => None,
    }
}

pub open spec fn spec_uframe_event(kind: UFrameKind) -> Option<LinkEvent> {
    match kind {
        UFrameKind::StartDtAct | UFrameKind::StartDtCon => Some(LinkEvent::DataTransferStarted),
        UFrameKind::StopDtAct | UFrameKind::StopDtCon => Some(LinkEvent::DataTransferStopped),
        _ => None,
    }
}

/// Decides the reaction to a received U-frame.
pub fn react_to_uframe(kind: UFrameKind) -> (r: UFrameReaction)
    ensures
        r.received_text@ == spec_received_text(kind),
        match (r.reply, spec_reply(kind)) {
            (Some((k, text)), Some((k2, text2))) => k == k2 && text@ == text2,
            (None, None) => true,
            _ => false,
        },
        r.event == spec_uframe_event(kind),
        r.clears_test == (kind == UFrameKind::StartDtCon || kind == UFrameKind::TestFrCon),
        r.auto_gi == (kind == UFrameKind::StartDtCon),
        match r.hint {
            Some(h) => kind == UFrameKind::TestFrCon && h@ == "test-frame-confirmed"@,
            None => kind != UFrameKind::TestFrCon,
        },
{
    match kind {
        UFrameKind::StartDtAct => UFrameReaction {
            received_text: "收到 STARTDT_ACT",
            reply: Some((UFrameKind::StartDtCon, "发送 STARTDT_CON")),
            event: Some(LinkEvent::DataTransferStarted),
            clears_test: false,
            auto_gi: false,
            hint: None,
        },
        UFrameKind::StartDtCon => UFrameReaction {
            received_text: "收到 STARTDT_CON",
            reply: None,
            event: Some(LinkEvent::DataTransferStarted),
            clears_test: true,
            auto_gi: true,
            hint: None,
        },
        UFrameKind::StopDtAct => UFrameReaction {
            received_text: "收到 STOPDT_ACT",
            reply: Some((UFrameKind::StopDtCon, "发送 STOPDT_CON")),
            event: Some(LinkEvent::DataTransferStopped),
            clears_test: false,
            auto_gi: false,
            hint: None,
        },
        UFrameKind::StopDtCon => UFrameReaction {
            received_text: "收到 STOPDT_CON",
            reply: None,
            event: Some(LinkEvent::DataTransferStopped),
            clears_test: false,
            auto_gi: false,
            hint: None,
        },
        UFrameKind::TestFrAct => UFrameReaction {
            received_text: "收到 TESTFR_ACT",
            reply: Some((UFrameKind::TestFrCon, "发送 TESTFR_CON")),
            event: None,
            clears_test: false,
            auto_gi: false,
            hint: None,
        },
        UFrameKind::TestFrCon => UFrameReaction {
            received_text: "收到 TESTFR_CON",
            reply: None,
            event: None,
            clears_test: true,
            auto_gi: false,
            hint: Some("test-frame-confirmed"),
        },
    }
}

/// The log text of a dropped connection.
pub open spec fn disconnect_text(peer_addr: Seq<char>, reason: Seq<char>) -> Seq<char> {
    "连接断开: "@ + peer_addr + " ("@ + reason + ")"@
}

/// What a master does when the TCP connection of `conn` dropped: the link
/// records the drop, reconnecting when automatic reconnection is on and the
/// transport still reconnects; the supervisor forgets the link's state; the
/// commands awaiting responses on the connection are dropped. Returns the
/// text to log and whether the connection's task goes on (it does exactly
/// when the link reconnects).
pub fn handle_disconnect(
    conn: &mut ConnectionInfo,
    supervisor: &mut LinkSupervisor,
    pending: &mut Vec<PendingCommand>,
    auto_reconnect: bool,
    reconnect_enabled: bool,
    auto_start: bool,
    peer_addr: &str,
    reason: &str,
) -> (r: (String, bool))
    ensures
        event_applied(*old(conn), *final(conn), LinkEvent::Disconnected { will_reconnect: auto_reconnect && reconnect_enabled }, auto_start),
        final(supervisor).is_quiet(),
        final(supervisor).wf(),
        final(supervisor).last_peer_ack_sequence == 0,
        !final(supervisor).frame_count_recovery_attempted,
        final(supervisor).settings == old(supervisor).settings,
        final(supervisor).handshake_started_at == old(supervisor).handshake_started_at,
        final(supervisor).last_activity == old(supervisor).last_activity,
        final(supervisor).last_data_transfer_state == old(supervisor).last_data_transfer_state,
        final(pending)@ == old(pending)@.filter(of_other_connection(old(conn).id@)),
        r.0@ == disconnect_text(peer_addr@, reason@),
        r.1 == (auto_reconnect && reconnect_enabled),
{
    remove_pending_commands_for_connection(pending, conn.id.as_str());
    let will_reconnect = auto_reconnect && reconnect_enabled;
    conn.apply_event(LinkEvent::Disconnected { will_reconnect }, auto_start);
    supervisor.clear_for_disconnect();
    let head = join3("连接断开: ", peer_addr, " (");
    let text = join3(head.as_str(), reason, ")");
    (text, will_reconnect)
}

/// Whether a connection record is of another connection than `connection_id`.
pub open spec fn of_other_link(connection_id: Seq<char>) -> spec_fn(ConnectionInfo) -> bool {
    |c: ConnectionInfo| c.id@ != connection_id
}

/// When a connection's task ends: its record and the commands awaiting
/// responses on it are dropped; the others keep their order.
pub fn end_connection_task(connections: &mut Vec<ConnectionInfo>, pending: &mut Vec<PendingCommand>, connection_id: &str)
    ensures
        final(connections)@ == old(connections)@.filter(of_other_link(connection_id@)),
        final(pending)@ == old(pending)@.filter(of_other_connection(connection_id@)),
{
    remove_pending_commands_for_connection(pending, connection_id);
    let ghost p = of_other_link(connection_id@);
    let ghost original = connections@;
    let n = connections.len();
    let mut i: usize = 0;
    let mut j: usize = 0;
    while j < n
        invariant
            n == original.len(),
            j <= n,
            p == of_other_link(connection_id@),
            i == original.take(j as int).filter(p).len(),
            connections@ == original.take(j as int).filter(p) + original.subrange(j as int, n as int),
        decreases n - j,
    {
        proof { lemma_filter_take_step(original, j as int, p); }
        let ghost kept = original.take(j as int).filter(p);
        assert(connections@[i as int] == original[j as int]);
        assert(p(original[j as int]) == (original[j as int].id@ != connection_id@));
        if str_equals(connections[i].id.as_str(), connection_id) {
            let _ = connections.remove(i);
            assert(connections@ =~= kept + original.subrange(j + 1, n as int));
        } else {
            assert(connections@ =~= kept.push(original[j as int]) + original.subrange(j + 1, n as int));
            i = i + 1;
        }
        j = j + 1;
    }
    assert(original.take(n as int) =~= original);
    assert(connections@ =~= original.filter(p));
}

/// Every received act U-frame (STARTDT, STOPDT, TESTFR) is answered by the
/// matching confirmation, logged as sent; a received confirmation is answered
/// by nothing.
pub proof fn every_act_is_confirmed(kind: UFrameKind)
    ensures
        kind == UFrameKind::StartDtAct ==> spec_reply(kind) == Some((UFrameKind::StartDtCon, "发送 STARTDT_CON"@)),
        kind == UFrameKind::StopDtAct ==> spec_reply(kind) == Some((UFrameKind::StopDtCon, "发送 STOPDT_CON"@)),
        kind == UFrameKind::TestFrAct ==> spec_reply(kind) == Some((UFrameKind::TestFrCon, "发送 TESTFR_CON"@)),
        (kind == UFrameKind::StartDtCon || kind == UFrameKind::StopDtCon || kind == UFrameKind::TestFrCon)
            ==> spec_reply(kind) is None,
        kind == UFrameKind::StopDtAct ==> spec_uframe_event(kind) == Some(LinkEvent::DataTransferStopped),
        kind == UFrameKind::StartDtAct ==> spec_uframe_event(kind) == Some(LinkEvent::DataTransferStarted),
{
}

} // verus!
