//! Commands the master sent and awaits a response for: how a response finds
//! its command and what it resolves it to, expiry, and the checks and
//! record made when a command is dispatched.

use vstd::prelude::*;
use vstd::string::*;

use crate::admission::{MasterPointAdmission, resolve_point_scope};
use crate::commands::{
    build_matches, command_times_encodable, command_type_id, Iec104Command, MasterCommands, QualifierMode, SelectExecute,
};
use crate::cp56::{cp56_bytes, cp56_encodable, cp56_resolvable, cp56_utc_text, Cp56Time, encode_cp56_time2a, format_cp56_utc};
use crate::errors::{Iec104ErrorCode, Iec104ExecutionError};
use crate::registry::{control_type, first_index_of_type, lookup_capability, measurement_supported, TypeDescriptor};
use crate::seqs::{first_match, lemma_filter_take_step, lemma_first_match, lemma_first_match_facts};
use crate::strutil::str_equals;
use crate::supervision::{DataTransferState, TransportState};
use crate::text::{decimal, join2, join3, text_with_number, u64_decimal};

verus! {

/// A command sent by the master that awaits its response.
#[derive(Debug)]
pub struct PendingCommand {
    pub trace_id: String,
    pub connection_id: String,
    pub type_id: u8,
    pub link_profile_id: Option<i64>,
    pub slave_id: Option<i64>,
    pub common_address: u16,
    pub ioa: Option<u32>,
    pub select_execute: Option<SelectExecute>,
    pub cp56: Option<[u8; 7]>,
    /// Bits of the commanded value as an IEEE 754 double.
    pub target_value_bits: Option<u64>,
    pub qualifier: Option<u8>,
    /// When the command was sent, in Unix milliseconds.
    pub created_at_ms: i64,
}

impl PendingCommand {
    /// A copy of the record.
    pub fn duplicate(&self) -> (r: PendingCommand)
        ensures
            r == *self,
    {
        PendingCommand {
            trace_id: self.trace_id.clone(),
            connection_id: self.connection_id.clone(),
            type_id: self.type_id,
            link_profile_id: self.link_profile_id,
            slave_id: self.slave_id,
            common_address: self.common_address,
            ioa: self.ioa,
            select_execute: self.select_execute,
            cp56: self.cp56,
            target_value_bits: self.target_value_bits,
            qualifier: self.qualifier,
            created_at_ms: self.created_at_ms,
        }
    }
}

/// What a response says of the value, qualifier and time tag of the command it answers.
#[derive(Clone, Copy, Debug)]
pub struct CommandResponseIdentity {
    pub target_value_bits: Option<u64>,
    pub qualifier: Option<u8>,
    pub cp56: Option<[u8; 7]>,
}

/// The state a response brings a pending command to.
#[derive(Clone, Copy, Debug, PartialEq, Eq, Structural)]
pub enum CommandResolution {
    RequestResponse,
    UnknownInformationObject,
    ActivationNegative,
    ActivationTermination,
    DeactivationConfirmation,
    SelectionConfirmation,
    ActivationConfirmation,
    CompletionOnConfirmation,
}

impl CommandResolution {
    pub open spec fn spec_as_str(self) -> Seq<char> {
        match self {
            CommandResolution::RequestResponse => "request-response"@,
            CommandResolution::UnknownInformationObject => "unknown-information-object"@,
            CommandResolution::ActivationNegative => "activation-negative"@,
            CommandResolution::ActivationTermination => "activation-termination"@,
            CommandResolution::DeactivationConfirmation => "deactivation-confirmation"@,
            CommandResolution::SelectionConfirmation => "selection-confirmation"@,
            CommandResolution::ActivationConfirmation => "activation-confirmation"@,
            CommandResolution::CompletionOnConfirmation => "completion-on-confirmation"@,
        }
    }

    /// The state's name as the user interface shows it.
    pub fn as_str(&self) -> (r: &'static str)
        ensures
            r@ == self.spec_as_str(),
    {
        match self {
            CommandResolution::RequestResponse => "request-response",
            CommandResolution::UnknownInformationObject => "unknown-information-object",
            CommandResolution::ActivationNegative => "activation-negative",
            CommandResolution::ActivationTermination => "activation-termination",
            CommandResolution::DeactivationConfirmation => "deactivation-confirmation",
            CommandResolution::SelectionConfirmation => "selection-confirmation",
            CommandResolution::ActivationConfirmation => "activation-confirmation",
            CommandResolution::CompletionOnConfirmation => "completion-on-confirmation",
        }
    }
}

pub open spec fn spec_ioa_matches(expected: Option<u32>, actual: Option<u32>) -> bool {
    match (expected, actual) {
        (Some(l), Some(r)) => l == r,
        (None, None) => true,
        (Some(l), None) => l == 0,
        (None, Some(r)) => r == 0,
    }
}

/// Whether a response's object address answers a command's: equal addresses,
/// or one side without address and the other at address 0.
pub fn pending_ioa_matches(expected: Option<u32>, actual: Option<u32>) -> (r: bool)
    ensures
        r == spec_ioa_matches(expected, actual),
{
    match (expected, actual) {
        (Some(left), Some(right)) => left == right,
        (None, None) => true,
        (Some(left), None) => left == 0,
        (None, Some(right)) => right == 0,
    }
}

pub open spec fn cot_of(cause: u16) -> u8 {
    (cause % 64) as u8
}

pub open spec fn is_negative(cause: u16) -> bool {
    (cause / 64) % 2 == 1
}

/// A read command is answered by a spontaneous report (COT 5) of a measured or control point type.
pub open spec fn read_response_capable(table: Seq<TypeDescriptor>, type_id: u8) -> bool {
    first_index_of_type(table, type_id) is Some && (measurement_supported(type_id) || control_type(type_id))
}

/// Whether `cmd` is the pending command a response answers.
pub open spec fn answers(
    cmd: PendingCommand,
    connection_id: Seq<char>,
    type_id: u8,
    cot: u8,
    common_address: u16,
    ioa: Option<u32>,
    identity: Option<CommandResponseIdentity>,
    read_capable: bool,
) -> bool {
    &&& cmd.connection_id@ == connection_id
    &&& (cmd.type_id == type_id || (cmd.type_id == 102 && cot == 5 && read_capable))
    &&& cmd.common_address == common_address
    &&& spec_ioa_matches(cmd.ioa, ioa)
    &&& (cmd.type_id == 102 || match identity {
        None => true,
        Some(id) => cmd.target_value_bits == id.target_value_bits && cmd.qualifier == id.qualifier
            && time_tag_view(cmd.cp56) == time_tag_view(id.cp56),
    })
}

/// A time tag by its octets.
pub open spec fn time_tag_view(t: Option<[u8; 7]>) -> Option<Seq<u8>> {
    match t {
        Some(b) => Some(b@),
        None => None,
    }
}

/// Whether two optional time tags hold the same octets.
pub fn same_time_tag(a: &Option<[u8; 7]>, b: &Option<[u8; 7]>) -> (r: bool)
    ensures
        r == (time_tag_view(*a) == time_tag_view(*b)),
{
    match (a, b) {
        (Some(x), Some(y)) => {
            let mut i: usize = 0;
            while i < 7
                invariant
                    i <= 7,
                    time_tag_view(*a) == Some(x@),
                    time_tag_view(*b) == Some(y@),
                    forall|j: int| 0 <= j < i ==> x@[j] == y@[j],
                decreases 7 - i,
            {
                if x[i] != y[i] {
                    assert(x@[i as int] != y@[i as int]);
                    return false;
                }
                i = i + 1;
            }
            assert(x@ =~= y@);
            true
        },
        (None, None) => true,
        _ => false,
    }
}

/// The predicate "answers this response" over pending commands.
pub open spec fn answers_pred(
    connection_id: Seq<char>,
    type_id: u8,
    cot: u8,
    common_address: u16,
    ioa: Option<u32>,
    identity: Option<CommandResponseIdentity>,
    read_capable: bool,
) -> spec_fn(PendingCommand) -> bool {
    |c: PendingCommand| answers(c, connection_id, type_id, cot, common_address, ioa, identity, read_capable)
}

pub open spec fn has_trace(trace_id: Seq<char>) -> spec_fn(PendingCommand) -> bool {
    |c: PendingCommand| c.trace_id@ == trace_id
}

pub open spec fn of_other_connection(connection_id: Seq<char>) -> spec_fn(PendingCommand) -> bool {
    |c: PendingCommand| c.connection_id@ != connection_id
}

pub open spec fn stale_pred(connection_id: Seq<char>, now_ms: i64, timeout_seconds: i64) -> spec_fn(PendingCommand) -> bool {
    |c: PendingCommand| is_stale(c, connection_id, now_ms, timeout_seconds)
}

pub open spec fn fresh_pred(connection_id: Seq<char>, now_ms: i64, timeout_seconds: i64) -> spec_fn(PendingCommand) -> bool {
    |c: PendingCommand| !is_stale(c, connection_id, now_ms, timeout_seconds)
}

/// The state a response brings the command it answers to, and whether the command is done.
pub open spec fn resolution_of(cmd: PendingCommand, type_id: u8, cause: u16) -> Option<(CommandResolution, bool)> {
    let cot = cot_of(cause);
    if cmd.type_id == 102 && cot == 5 {
        Some((CommandResolution::RequestResponse, true))
    } else if cmd.type_id == 102 && type_id == 102 && cot == 47 {
        Some((CommandResolution::UnknownInformationObject, true))
    } else if is_negative(cause) {
        Some((CommandResolution::ActivationNegative, true))
    } else if cot == 10 {
        Some((CommandResolution::ActivationTermination, true))
    } else if cot == 9 {
        Some((CommandResolution::DeactivationConfirmation, true))
    } else if cot == 7 {
        if cmd.select_execute == Some(SelectExecute::Select) {
            Some((CommandResolution::SelectionConfirmation, true))
        } else if type_id == 100 || type_id == 101 || type_id == 103 || control_type(type_id) {
            Some((CommandResolution::ActivationConfirmation, false))
        } else {
            Some((CommandResolution::CompletionOnConfirmation, true))
        }
    } else {
        None
    }
}

/// The state a response brings `cmd` to, and whether the command is done.
pub fn resolution_for(cmd: &PendingCommand, type_id: u8, cause: u16) -> (r: Option<(CommandResolution, bool)>)
    ensures
        r == resolution_of(*cmd, type_id, cause),
{
    let cot: u8 = (cause % 64) as u8;
    let negative = (cause / 64) % 2 == 1;
    if cmd.type_id == 102 && cot == 5 {
        Some((CommandResolution::RequestResponse, true))
    } else if cmd.type_id == 102 && type_id == 102 && cot == 47 {
        Some((CommandResolution::UnknownInformationObject, true))
    } else if negative {
        Some((CommandResolution::ActivationNegative, true))
    } else if cot == 10 {
        Some((CommandResolution::ActivationTermination, true))
    } else if cot == 9 {
        Some((CommandResolution::DeactivationConfirmation, true))
    } else if cot == 7 {
        if cmd.select_execute == Some(SelectExecute::Select) {
            Some((CommandResolution::SelectionConfirmation, true))
        } else if type_id == 100 || type_id == 101 || type_id == 103
            || (45 <= type_id && type_id <= 51) || (58 <= type_id && type_id <= 64) {
            Some((CommandResolution::ActivationConfirmation, false))
        } else {
            Some((CommandResolution::CompletionOnConfirmation, true))
        }
    } else {
        None
    }
}

/// Finds the first pending command a response answers and applies the
/// response to it. Commands the response completes leave the queue; an
/// activation confirmation of a control or system command keeps it waiting
/// for its termination.
pub fn resolve_pending_command_state_with_identity(
    pending: &mut Vec<PendingCommand>,
    table: &Vec<TypeDescriptor>,
    connection_id: &str,
    type_id: u8,
    cause: u16,
    common_address: u16,
    ioa: Option<u32>,
    identity: Option<CommandResponseIdentity>,
) -> (r: Option<(PendingCommand, CommandResolution)>)
    ensures
        ({
            let p = answers_pred(connection_id@, type_id, cot_of(cause), common_address, ioa, identity,
                read_response_capable(table@, type_id));
            match first_match(old(pending)@, p) {
                None => r is None && final(pending)@ == old(pending)@,
                Some(i) => match resolution_of(old(pending)@[i], type_id, cause) {
                    None => r is None && final(pending)@ == old(pending)@,
                    Some((state, done)) => {
                        &&& r == Some((old(pending)@[i], state))
                        &&& final(pending)@ == (if done { old(pending)@.remove(i) } else { old(pending)@ })
                    },
                },
            }
        }),
{
    let cot: u8 = (cause % 64) as u8;
    let read_capable = match lookup_capability(table, type_id) {
        Some(c) => {
            proof { crate::registry::lemma_lookup_read_capable(table@, type_id, c); }
            c.point_configurable && c.master_receive
        },
        None => false,
    };
    assert(read_capable == read_response_capable(table@, type_id));
    let ghost p = answers_pred(connection_id@, type_id, cot_of(cause), common_address, ioa, identity, read_capable);
    let mut i: usize = 0;
    while i < pending.len()
        invariant
            i <= pending@.len(),
            pending@ == old(pending)@,
            p == answers_pred(connection_id@, type_id, cot_of(cause), common_address, ioa, identity, read_capable),
            cot == cot_of(cause),
            read_capable == read_response_capable(table@, type_id),
            forall|j: int| 0 <= j < i ==> !p(#[trigger] pending@[j]),
        decreases pending@.len() - i,
    {
        let c = &pending[i];
        let type_ok = c.type_id == type_id || (c.type_id == 102 && cot == 5 && read_capable);
        let identity_ok = c.type_id == 102 || match identity {
            None => true,
            Some(id) => c.target_value_bits == id.target_value_bits && c.qualifier == id.qualifier && same_time_tag(&c.cp56, &id.cp56),
        };
        let matched = str_equals(c.connection_id.as_str(), connection_id) && type_ok && c.common_address == common_address
            && pending_ioa_matches(c.ioa, ioa) && identity_ok;
        assert(matched == p(pending@[i as int]));
        if matched {
            proof { lemma_first_match(old(pending)@, p, i as int); }
            match resolution_for(&pending[i], type_id, cause) {
                None => { return None; },
                Some((state, done)) => {
                    if done {
                        let cmd = pending.remove(i);
                        return Some((cmd, state));
                    } else {
                        return Some((pending[i].duplicate(), state));
                    }
                },
            }
        }
        i = i + 1;
    }
    proof { lemma_first_match(old(pending)@, p, i as int); }
    None
}

/// Queues a command sent to the peer.
pub fn enqueue_pending_command(pending: &mut Vec<PendingCommand>, command: PendingCommand)
    ensures
        final(pending)@ == old(pending)@.push(command),
{
    pending.push(command);
}

/// Removes and returns the first pending command with `trace_id`.
pub fn remove_pending_command_by_trace(pending: &mut Vec<PendingCommand>, trace_id: &str) -> (r: Option<PendingCommand>)
    ensures
        ({
            let p = has_trace(trace_id@);
            match first_match(old(pending)@, p) {
                None => r is None && final(pending)@ == old(pending)@,
                Some(i) => r == Some(old(pending)@[i]) && final(pending)@ == old(pending)@.remove(i),
            }
        }),
{
    let ghost p = has_trace(trace_id@);
    let mut i: usize = 0;
    while i < pending.len()
        invariant
            i <= pending@.len(),
            pending@ == old(pending)@,
            p == has_trace(trace_id@),
            forall|j: int| 0 <= j < i ==> !p(#[trigger] pending@[j]),
        decreases pending@.len() - i,
    {
        assert(p(pending@[i as int]) == (pending@[i as int].trace_id@ == trace_id@));
        if str_equals(pending[i].trace_id.as_str(), trace_id) {
            proof { lemma_first_match(old(pending)@, p, i as int); }
            return Some(pending.remove(i));
        }
        i = i + 1;
    }
    proof { lemma_first_match(old(pending)@, p, i as int); }
    None
}

/// After the ASDU of a queued command was sent, or failed to be sent: a
/// failure takes the command back out of the queue by its trace id and is
/// the answer; a success leaves the queue as it is and answers with the receipt.
pub fn settle_command_dispatch(
    pending: &mut Vec<PendingCommand>,
    receipt: CommandDispatchReceipt,
    sent: Result<(), Iec104ExecutionError>,
) -> (r: Result<CommandDispatchReceipt, Iec104ExecutionError>)
    ensures
        match sent {
            Ok(()) => r == Ok::<CommandDispatchReceipt, Iec104ExecutionError>(receipt) && final(pending)@ == old(pending)@,
            Err(e) => r == Err::<CommandDispatchReceipt, Iec104ExecutionError>(e) && match first_match(old(pending)@, has_trace(receipt.trace_id@)) {
                None => final(pending)@ == old(pending)@,
                Some(i) => final(pending)@ == old(pending)@.remove(i),
            },
        },
{
    match sent {
        Ok(()) => Ok(receipt),
        Err(e) => {
            let _ = remove_pending_command_by_trace(pending, receipt.trace_id.as_str());
            Err(e)
        },
    }
}

/// The name a transport state prints under.
pub open spec fn transport_state_name(s: TransportState) -> Seq<char> {
    match s {
        TransportState::Disconnected => "Disconnected"@,
        TransportState::Connecting => "Connecting"@,
        TransportState::Connected => "Connected"@,
        TransportState::Error => "Error"@,
    }
}

/// The name a data transfer state prints under.
pub open spec fn data_transfer_state_name(s: DataTransferState) -> Seq<char> {
    match s {
        DataTransferState::Stopped => "Stopped"@,
        DataTransferState::Starting => "Starting"@,
        DataTransferState::Started => "Started"@,
        DataTransferState::Stopping => "Stopping"@,
        DataTransferState::Timeout => "Timeout"@,
        DataTransferState::Error => "Error"@,
    }
}

fn transport_state_text(s: TransportState) -> (r: &'static str)
    ensures
        r@ == transport_state_name(s),
{
    match s {
        TransportState::Disconnected => {
            proof { reveal_strlit("Disconnected"); }
            "Disconnected"
        },
        TransportState::Connecting => {
            proof { reveal_strlit("Connecting"); }
            "Connecting"
        },
        TransportState::Connected => {
            proof { reveal_strlit("Connected"); }
            "Connected"
        },
        TransportState::Error => {
            proof { reveal_strlit("Error"); }
            "Error"
        },
    }
}

fn data_transfer_state_text(s: DataTransferState) -> (r: &'static str)
    ensures
        r@ == data_transfer_state_name(s),
{
    match s {
        DataTransferState::Stopped => {
            proof { reveal_strlit("Stopped"); }
            "Stopped"
        },
        DataTransferState::Starting => {
            proof { reveal_strlit("Starting"); }
            "Starting"
        },
        DataTransferState::Started => {
            proof { reveal_strlit("Started"); }
            "Started"
        },
        DataTransferState::Stopping => {
            proof { reveal_strlit("Stopping"); }
            "Stopping"
        },
        DataTransferState::Timeout => {
            proof { reveal_strlit("Timeout"); }
            "Timeout"
        },
        DataTransferState::Error => {
            proof { reveal_strlit("Error"); }
            "Error"
        },
    }
}

/// Why a command's ASDU cannot go out on connection `connection_id` now, if it
/// cannot: a missing client, protocol context or connection is a
/// `NotConnected` refusal; a data transfer not started is a `ProtocolState`
/// refusal that names both states.
pub open spec fn send_refusal(
    connection_id: Seq<char>,
    has_client: bool,
    has_protocol: bool,
    state: Option<(TransportState, DataTransferState)>,
) -> Option<(Iec104ErrorCode, Seq<char>)> {
    if !has_client {
        Some((Iec104ErrorCode::NotConnected, "connection "@ + connection_id + " not found"@))
    } else if !has_protocol {
        Some((Iec104ErrorCode::NotConnected, "protocol context for "@ + connection_id + " not found"@))
    } else {
        match state {
            None => Some((Iec104ErrorCode::NotConnected, "connection "@ + connection_id + " not found"@)),
            Some((transport, data_transfer)) => if data_transfer != DataTransferState::Started {
                Some((Iec104ErrorCode::ProtocolState, "data transfer not started: transport="@ + transport_state_name(transport)
                    + " data_transfer="@ + data_transfer_state_name(data_transfer)))
            } else {
                None
            },
        }
    }
}

/// Checks that a command's ASDU can go out on the connection: whether the
/// connection has a client and a protocol context, and its two states if it
/// is known. A refusal carries the command's trace id.
pub fn check_send_ready(
    connection_id: &str,
    has_client: bool,
    has_protocol: bool,
    state: Option<(TransportState, DataTransferState)>,
    trace_id: &str,
) -> (r: Result<(), Iec104ExecutionError>)
    ensures
        match send_refusal(connection_id@, has_client, has_protocol, state) {
            None => r is Ok,
            Some((code, message)) => r matches Err(e) && e.code == code && e.message@ == message
                && (e.trace_id matches Some(t) && t@ == trace_id@),
        },
{
    let refusal: Option<(Iec104ErrorCode, String)> = if !has_client {
        Some((Iec104ErrorCode::NotConnected, join3("connection ", connection_id, " not found")))
    } else if !has_protocol {
        Some((Iec104ErrorCode::NotConnected, join3("protocol context for ", connection_id, " not found")))
    } else {
        match state {
            None => Some((Iec104ErrorCode::NotConnected, join3("connection ", connection_id, " not found"))),
            Some((transport, data_transfer)) => if data_transfer != DataTransferState::Started {
                let head = join2("data transfer not started: transport=", transport_state_text(transport));
                let tail = join2(" data_transfer=", data_transfer_state_text(data_transfer));
                Some((Iec104ErrorCode::ProtocolState, join2(head.as_str(), tail.as_str())))
            } else {
                None
            },
        }
    };
    match refusal {
        None => Ok(()),
        Some((code, message)) => Err(Iec104ExecutionError { code, message, trace_id: Some(String::from_str(trace_id)) }),
    }
}

/// The log text of a command's I-frame that went out.
pub fn sent_iframe_text(type_id: u8, cause: u16, common_address: u16) -> (r: String)
    ensures
        r@ == "发送 I 帧 type_id="@ + decimal(type_id as nat) + " cot="@ + decimal(cause as nat) + " ca="@
            + decimal(common_address as nat),
{
    let a = text_with_number("发送 I 帧 type_id=", type_id as u64, " cot=");
    let b = text_with_number("", cause as u64, " ca=");
    let c = text_with_number("", common_address as u64, "");
    proof { reveal_strlit(""); }
    join3(a.as_str(), b.as_str(), c.as_str())
}

/// Drops every pending command of a connection; the others keep their order.
pub fn remove_pending_commands_for_connection(pending: &mut Vec<PendingCommand>, connection_id: &str)
    ensures
        final(pending)@ == old(pending)@.filter(of_other_connection(connection_id@)),
{
    let ghost p = of_other_connection(connection_id@);
    let ghost original = pending@;
    let mut kept: Vec<PendingCommand> = Vec::new();
    let n = pending.len();
    let mut i: usize = 0;
    while i < n
        invariant
            n == original.len(),
            pending@ == original,
            i <= n,
            kept@ == original.take(i as int).filter(p),
            p == of_other_connection(connection_id@),
        decreases n - i,
    {
        proof { lemma_filter_take_step(original, i as int, p); }
        assert(p(original[i as int]) == (original[i as int].connection_id@ != connection_id@));
        if !str_equals(pending[i].connection_id.as_str(), connection_id) {
            kept.push(pending[i].duplicate());
        }
        i = i + 1;
    }
    assert(original.take(n as int) =~= original);
    *pending = kept;
}

/// Whole seconds from `from_ms` to `to_ms`, truncated towards zero.
pub open spec fn whole_seconds_between(from_ms: i64, to_ms: i64) -> int {
    let d = to_ms - from_ms;
    if d >= 0 { d / 1000 } else { -((-d) / 1000) }
}

/// Whether a pending command of `connection_id` waited `timeout_seconds` or more at `now_ms`.
pub open spec fn is_stale(c: PendingCommand, connection_id: Seq<char>, now_ms: i64, timeout_seconds: i64) -> bool {
    c.connection_id@ == connection_id && whole_seconds_between(c.created_at_ms, now_ms) >= timeout_seconds
}

/// Takes out the commands of a connection that waited at least `timeout_seconds`;
/// both the expired and the remaining commands keep their order.
pub fn take_expired_pending_commands(pending: &mut Vec<PendingCommand>, connection_id: &str, now_ms: i64, timeout_seconds: i64) -> (r: Vec<PendingCommand>)
    ensures
        r@ == old(pending)@.filter(stale_pred(connection_id@, now_ms, timeout_seconds)),
        final(pending)@ == old(pending)@.filter(fresh_pred(connection_id@, now_ms, timeout_seconds)),
{
    let ghost stale = stale_pred(connection_id@, now_ms, timeout_seconds);
    let ghost fresh = fresh_pred(connection_id@, now_ms, timeout_seconds);
    let ghost original = pending@;
    let mut expired: Vec<PendingCommand> = Vec::new();
    let mut kept: Vec<PendingCommand> = Vec::new();
    let n = pending.len();
    let mut i: usize = 0;
    while i < n
        invariant
            n == original.len(),
            pending@ == original,
            i <= n,
            expired@ == original.take(i as int).filter(stale),
            kept@ == original.take(i as int).filter(fresh),
            stale == stale_pred(connection_id@, now_ms, timeout_seconds),
            fresh == fresh_pred(connection_id@, now_ms, timeout_seconds),
        decreases n - i,
    {
        proof {
            lemma_filter_take_step(original, i as int, stale);
            lemma_filter_take_step(original, i as int, fresh);
        }
        let c = &pending[i];
        let d: i128 = now_ms as i128 - c.created_at_ms as i128;
        let secs: i128 = if d >= 0 { d / 1000 } else { -((-d) / 1000) };
        let is_old = str_equals(c.connection_id.as_str(), connection_id) && secs >= timeout_seconds as i128;
        assert(secs == whole_seconds_between(original[i as int].created_at_ms, now_ms));
        assert(is_old == stale(original[i as int]));
        assert(!is_old == fresh(original[i as int]));
        if is_old {
            expired.push(c.duplicate());
        } else {
            kept.push(c.duplicate());
        }
        i = i + 1;
    }
    assert(original.take(n as int) =~= original);
    *pending = kept;
    expired
}

/// The object address a command addresses: 0 for interrogations, none for a
/// clock synchronization, the command's address otherwise.
pub open spec fn spec_primary_ioa(c: Iec104Command) -> Option<u32> {
    match c {
        Iec104Command::GeneralInterrogation { .. } => Some(0),
        Iec104Command::CounterInterrogation { .. } => Some(0),
        Iec104Command::ClockSynchronization { .. } => None,
        Iec104Command::TestCommand { ioa, .. } => Some(ioa),
        Iec104Command::ResetProcessCommand { ioa, .. } => Some(ioa),
        Iec104Command::SingleCommand { ioa, .. } => Some(ioa),
        Iec104Command::DoubleCommand { ioa, .. } => Some(ioa),
        Iec104Command::RegulatingStepCommand { ioa, .. } => Some(ioa),
        Iec104Command::SetPointNormalized { ioa, .. } => Some(ioa),
        Iec104Command::SetPointScaled { ioa, .. } => Some(ioa),
        Iec104Command::SetPointShortFloat { ioa, .. } => Some(ioa),
        Iec104Command::BitStringCommand { ioa, .. } => Some(ioa),
        Iec104Command::SingleCommandTimed { ioa, .. } => Some(ioa),
        Iec104Command::DoubleCommandTimed { ioa, .. } => Some(ioa),
        Iec104Command::RegulatingStepCommandTimed { ioa, .. } => Some(ioa),
        Iec104Command::SetPointNormalizedTimed { ioa, .. } => Some(ioa),
        Iec104Command::SetPointScaledTimed { ioa, .. } => Some(ioa),
        Iec104Command::SetPointShortFloatTimed { ioa, .. } => Some(ioa),
        Iec104Command::BitStringCommandTimed { ioa, .. } => Some(ioa),
        Iec104Command::ReadCommand { ioa } => Some(ioa),
    }
}

pub fn command_primary_ioa(command: &Iec104Command) -> (r: Option<u32>)
    ensures
        r == spec_primary_ioa(*command),
{
    match command {
        Iec104Command::GeneralInterrogation { .. } => Some(0),
        Iec104Command::CounterInterrogation { .. } => Some(0),
        Iec104Command::ClockSynchronization { .. } => None,
        Iec104Command::TestCommand { ioa, .. } => Some(*ioa),
        Iec104Command::ResetProcessCommand { ioa, .. } => Some(*ioa),
        Iec104Command::SingleCommand { ioa, .. } => Some(*ioa),
        Iec104Command::DoubleCommand { ioa, .. } => Some(*ioa),
        Iec104Command::RegulatingStepCommand { ioa, .. } => Some(*ioa),
        Iec104Command::SetPointNormalized { ioa, .. } => Some(*ioa),
        Iec104Command::SetPointScaled { ioa, .. } => Some(*ioa),
        Iec104Command::SetPointShortFloat { ioa, .. } => Some(*ioa),
        Iec104Command::BitStringCommand { ioa, .. } => Some(*ioa),
        Iec104Command::SingleCommandTimed { ioa, .. } => Some(*ioa),
        Iec104Command::DoubleCommandTimed { ioa, .. } => Some(*ioa),
        Iec104Command::RegulatingStepCommandTimed { ioa, .. } => Some(*ioa),
        Iec104Command::SetPointNormalizedTimed { ioa, .. } => Some(*ioa),
        Iec104Command::SetPointScaledTimed { ioa, .. } => Some(*ioa),
        Iec104Command::SetPointShortFloatTimed { ioa, .. } => Some(*ioa),
        Iec104Command::BitStringCommandTimed { ioa, .. } => Some(*ioa),
        Iec104Command::ReadCommand { ioa } => Some(*ioa),
    }
}

/// The qualifier a response must echo: QOI, QCC, QU or QL.
pub open spec fn spec_qualifier_identity(c: Iec104Command) -> Option<u8> {
    match c {
        Iec104Command::GeneralInterrogation { qoi } => Some(qoi.spec_as_u8()),
        Iec104Command::CounterInterrogation { qcc } => Some(qcc.spec_as_u8()),
        Iec104Command::SingleCommand { qu, .. } => Some(qu),
        Iec104Command::DoubleCommand { qu, .. } => Some(qu),
        Iec104Command::RegulatingStepCommand { qu, .. } => Some(qu),
        Iec104Command::SingleCommandTimed { qu, .. } => Some(qu),
        Iec104Command::DoubleCommandTimed { qu, .. } => Some(qu),
        Iec104Command::RegulatingStepCommandTimed { qu, .. } => Some(qu),
        Iec104Command::SetPointNormalized { qos, .. } => Some(qos.ql),
        Iec104Command::SetPointScaled { qos, .. } => Some(qos.ql),
        Iec104Command::SetPointShortFloat { qos, .. } => Some(qos.ql),
        Iec104Command::SetPointNormalizedTimed { qos, .. } => Some(qos.ql),
        Iec104Command::SetPointScaledTimed { qos, .. } => Some(qos.ql),
        Iec104Command::SetPointShortFloatTimed { qos, .. } => Some(qos.ql),
        _ => None,
    }
}

pub fn command_qualifier_identity(command: &Iec104Command) -> (r: Option<u8>)
    ensures
        r == spec_qualifier_identity(*command),
{
    match command {
        Iec104Command::GeneralInterrogation { qoi } => Some(qoi.as_u8()),
        Iec104Command::CounterInterrogation { qcc } => Some(qcc.as_u8()),
        Iec104Command::SingleCommand { qu, .. } => Some(*qu),
        Iec104Command::DoubleCommand { qu, .. } => Some(*qu),
        Iec104Command::RegulatingStepCommand { qu, .. } => Some(*qu),
        Iec104Command::SingleCommandTimed { qu, .. } => Some(*qu),
        Iec104Command::DoubleCommandTimed { qu, .. } => Some(*qu),
        Iec104Command::RegulatingStepCommandTimed { qu, .. } => Some(*qu),
        Iec104Command::SetPointNormalized { qos, .. } => Some(qos.ql),
        Iec104Command::SetPointScaled { qos, .. } => Some(qos.ql),
        Iec104Command::SetPointShortFloat { qos, .. } => Some(qos.ql),
        Iec104Command::SetPointNormalizedTimed { qos, .. } => Some(qos.ql),
        Iec104Command::SetPointScaledTimed { qos, .. } => Some(qos.ql),
        Iec104Command::SetPointShortFloatTimed { qos, .. } => Some(qos.ql),
        _ => None,
    }
}

/// The select/execute step of a control or set-point command.
pub open spec fn spec_select_execute(c: Iec104Command) -> Option<SelectExecute> {
    match c {
        Iec104Command::SingleCommand { se, .. } => Some(se),
        Iec104Command::DoubleCommand { se, .. } => Some(se),
        Iec104Command::RegulatingStepCommand { se, .. } => Some(se),
        Iec104Command::SingleCommandTimed { se, .. } => Some(se),
        Iec104Command::DoubleCommandTimed { se, .. } => Some(se),
        Iec104Command::RegulatingStepCommandTimed { se, .. } => Some(se),
        Iec104Command::SetPointNormalized { qos, .. } => Some(qos.se),
        Iec104Command::SetPointScaled { qos, .. } => Some(qos.se),
        Iec104Command::SetPointShortFloat { qos, .. } => Some(qos.se),
        Iec104Command::SetPointNormalizedTimed { qos, .. } => Some(qos.se),
        Iec104Command::SetPointScaledTimed { qos, .. } => Some(qos.se),
        Iec104Command::SetPointShortFloatTimed { qos, .. } => Some(qos.se),
        _ => None,
    }
}

pub fn command_select_execute(command: &Iec104Command) -> (r: Option<SelectExecute>)
    ensures
        r == spec_select_execute(*command),
{
    match command {
        Iec104Command::SingleCommand { se, .. } => Some(*se),
        Iec104Command::DoubleCommand { se, .. } => Some(*se),
        Iec104Command::RegulatingStepCommand { se, .. } => Some(*se),
        Iec104Command::SingleCommandTimed { se, .. } => Some(*se),
        Iec104Command::DoubleCommandTimed { se, .. } => Some(*se),
        Iec104Command::RegulatingStepCommandTimed { se, .. } => Some(*se),
        Iec104Command::SetPointNormalized { qos, .. } => Some(qos.se),
        Iec104Command::SetPointScaled { qos, .. } => Some(qos.se),
        Iec104Command::SetPointShortFloat { qos, .. } => Some(qos.se),
        Iec104Command::SetPointNormalizedTimed { qos, .. } => Some(qos.se),
        Iec104Command::SetPointScaledTimed { qos, .. } => Some(qos.se),
        Iec104Command::SetPointShortFloatTimed { qos, .. } => Some(qos.se),
        _ => None,
    }
}

/// The time tag of a timed control command.
pub open spec fn spec_command_time(c: Iec104Command) -> Option<Cp56Time> {
    match c {
        Iec104Command::SingleCommandTimed { timestamp, .. } => Some(timestamp),
        Iec104Command::DoubleCommandTimed { timestamp, .. } => Some(timestamp),
        Iec104Command::RegulatingStepCommandTimed { timestamp, .. } => Some(timestamp),
        Iec104Command::SetPointNormalizedTimed { timestamp, .. } => Some(timestamp),
        Iec104Command::SetPointScaledTimed { timestamp, .. } => Some(timestamp),
        Iec104Command::SetPointShortFloatTimed { timestamp, .. } => Some(timestamp),
        Iec104Command::BitStringCommandTimed { timestamp, .. } => Some(timestamp),
        _ => None,
    }
}

/// The time a command carries for display: the time tag of a timed control
/// command, or the time a clock synchronization sets.
pub open spec fn spec_command_shown_time(c: Iec104Command) -> Option<Cp56Time> {
    match c {
        Iec104Command::ClockSynchronization { timestamp } => timestamp,
        _ => spec_command_time(c),
    }
}

/// The time a command carries, as UTC text.
pub fn command_cp56_text(command: &Iec104Command) -> (r: Option<String>)
    requires
        spec_command_shown_time(*command) matches Some(t) ==> cp56_resolvable(t) && t.year <= 9999,
    ensures
        match spec_command_shown_time(*command) {
            Some(t) => r matches Some(s) && s@ == cp56_utc_text(t),
            None => r is None,
        },
{
    let t = match command {
        Iec104Command::ClockSynchronization { timestamp } => match timestamp {
            Some(t) => *t,
            None => { return None; },
        },
        Iec104Command::SingleCommandTimed { timestamp, .. } => *timestamp,
        Iec104Command::DoubleCommandTimed { timestamp, .. } => *timestamp,
        Iec104Command::RegulatingStepCommandTimed { timestamp, .. } => *timestamp,
        Iec104Command::SetPointNormalizedTimed { timestamp, .. } => *timestamp,
        Iec104Command::SetPointScaledTimed { timestamp, .. } => *timestamp,
        Iec104Command::SetPointShortFloatTimed { timestamp, .. } => *timestamp,
        Iec104Command::BitStringCommandTimed { timestamp, .. } => *timestamp,
        _ => { return None; },
    };
    Some(format_cp56_utc(t))
}

/// The CP56Time2a octets of a timed control command's time tag.
pub fn command_cp56_identity(command: &Iec104Command) -> (r: Option<[u8; 7]>)
    requires
        spec_command_time(*command) matches Some(t) ==> cp56_encodable(t),
    ensures
        match spec_command_time(*command) {
            Some(t) => r matches Some(b) && b@ == cp56_bytes(t),
            None => r is None,
        },
{
    let t = match command {
        Iec104Command::SingleCommandTimed { timestamp, .. } => *timestamp,
        Iec104Command::DoubleCommandTimed { timestamp, .. } => *timestamp,
        Iec104Command::RegulatingStepCommandTimed { timestamp, .. } => *timestamp,
        Iec104Command::SetPointNormalizedTimed { timestamp, .. } => *timestamp,
        Iec104Command::SetPointScaledTimed { timestamp, .. } => *timestamp,
        Iec104Command::SetPointShortFloatTimed { timestamp, .. } => *timestamp,
        Iec104Command::BitStringCommandTimed { timestamp, .. } => *timestamp,
        _ => { return None; },
    };
    Some(encode_cp56_time2a(t))
}

/// Identifies a dispatched command.
#[derive(Clone, Debug)]
pub struct CommandDispatchReceipt {
    pub trace_id: String,
    pub type_id: u8,
    pub common_address: u16,
}

/// What a dispatch records and sends: the ASDU, the pending command to queue before sending, and the receipt.
#[derive(Debug)]
pub struct DispatchPlan {
    pub asdu: crate::commands::AsduInfo,
    pub pending: PendingCommand,
    pub receipt: CommandDispatchReceipt,
}

pub open spec fn normalized_slave_id(slave_id: i64) -> Option<i64> {
    if slave_id > 0 { Some(slave_id) } else { None }
}

/// Whether a control command to `(connection, ca, ioa)` is already awaiting its response.
pub open spec fn control_pending(pending: Seq<PendingCommand>, connection_id: Seq<char>, common_address: u16, ioa: Option<u32>) -> bool {
    exists|i: int| 0 <= i < pending.len() && (#[trigger] pending[i]).connection_id@ == connection_id
        && pending[i].common_address == common_address && pending[i].ioa == ioa
}

/// Message of a command refused because its point is disabled.
pub open spec fn disabled_message(common_address: u16, address: u32) -> Seq<char> {
    "configured point is disabled for CA="@ + decimal(common_address as nat) + " IOA="@ + decimal(address as nat)
}

/// Message of a command refused because another awaits its response.
pub open spec fn busy_message(common_address: u16, ioa: Option<u32>) -> Seq<char> {
    "a command is already pending for CA="@ + decimal(common_address as nat) + " IOA="@
        + decimal(match ioa { Some(a) => a as nat, None => 0 })
}

fn two_numbers(first: &str, a: u64, second: &str, b: u64) -> (r: String)
    ensures
        r@ == first@ + decimal(a as nat) + second@ + decimal(b as nat),
{
    let head = text_with_number(first, a, second);
    let tail = u64_decimal(b);
    join2(head.as_str(), tail.as_str())
}

/// Validates a command and prepares its dispatch on a connection. The
/// command's ASDU must build, a control command's point must not be disabled,
/// and no control command to the same point may be awaiting a response.
/// `target_value_bits` is the commanded value as IEEE 754 double bits, as the
/// response identity carries it; `now` and `now_ms` are the current time.
pub fn plan_command_dispatch(
    pending: &Vec<PendingCommand>,
    admission: &MasterPointAdmission,
    connection_id: &str,
    link_profile_id: Option<i64>,
    slave_id: i64,
    common_address: u16,
    command: &Iec104Command,
    qualifier_mode: QualifierMode,
    target_value_bits: Option<u64>,
    now: Cp56Time,
    now_ms: i64,
) -> (r: Result<DispatchPlan, Iec104ExecutionError>)
    requires
        crate::commands::build_failure(common_address, *command, qualifier_mode) is None ==> command_times_encodable(*command, now),
    ensures
        ({
            let ioa = spec_primary_ioa(*command);
            let control = control_type(command_type_id(*command));
            let slave = normalized_slave_id(slave_id);
            let scope = match slave { Some(v) => (Some(v), Seq::<char>::empty()), None => (None::<i64>, connection_id@) };
            match r {
                Err(e) => {
                    &&& e.trace_id matches Some(t) && crate::ids::uuid_v4_text(t@)
                    &&& (build_matches(Err(crate::errors::Iec104ValidationError { code: e.code, message: e.message }),
                            common_address, *command, qualifier_mode, now)
                        || (crate::commands::build_failure(common_address, *command, qualifier_mode) is None && control && ioa is Some && e.code == Iec104ErrorCode::ProtocolState && (
                            (admission.spec_is_disabled(scope, common_address, ioa->0) && e.message@ == disabled_message(common_address, ioa->0))
                            || (!admission.spec_is_disabled(scope, common_address, ioa->0) && control_pending(pending@, connection_id@, common_address, ioa)
                                && e.message@ == busy_message(common_address, ioa))))
                        || (crate::commands::build_failure(common_address, *command, qualifier_mode) is None && control && ioa is None
                            && control_pending(pending@, connection_id@, common_address, ioa)
                            && e.code == Iec104ErrorCode::ProtocolState && e.message@ == busy_message(common_address, ioa)))
                },
                Ok(plan) => {
                    &&& build_matches(Ok(plan.asdu), common_address, *command, qualifier_mode, now)
                    &&& control ==> !control_pending(pending@, connection_id@, common_address, ioa)
                    &&& (control && ioa is Some) ==> !admission.spec_is_disabled(scope, common_address, ioa->0)
                    &&& plan.pending.trace_id == plan.receipt.trace_id
                    &&& crate::ids::uuid_v4_text(plan.receipt.trace_id@)
                    &&& plan.pending.connection_id@ == connection_id@
                    &&& plan.pending.type_id == plan.asdu.type_id
                    &&& plan.pending.link_profile_id == link_profile_id
                    &&& plan.pending.slave_id == slave
                    &&& plan.pending.common_address == common_address
                    &&& plan.pending.ioa == ioa
                    &&& plan.pending.select_execute == spec_select_execute(*command)
                    &&& (match spec_command_time(*command) {
                        Some(t) => plan.pending.cp56 matches Some(b) && b@ == cp56_bytes(t),
                        None => plan.pending.cp56 is None,
                    })
                    &&& plan.pending.target_value_bits == target_value_bits
                    &&& plan.pending.qualifier == spec_qualifier_identity(*command)
                    &&& plan.pending.created_at_ms == now_ms
                    &&& plan.receipt.type_id == plan.asdu.type_id
                    &&& plan.receipt.common_address == common_address
                },
            }
        }),
{
    let trace_id = crate::ids::new_uuid();
    let ioa = command_primary_ioa(command);
    let slave = if slave_id > 0 { Some(slave_id) } else { None };
    let asdu = match MasterCommands::build_asdu_with_qualifier_mode(common_address, command, qualifier_mode, now) {
        Ok(asdu) => asdu,
        Err(err) => {
            return Err(Iec104ExecutionError::from_validation(err, trace_id));
        },
    };
    let control = (45 <= asdu.type_id && asdu.type_id <= 51) || (58 <= asdu.type_id && asdu.type_id <= 64);
    if control {
        match ioa {
            Some(address) => {
                let scope = resolve_point_scope(connection_id, slave);
                if admission.is_disabled(&scope, common_address, address) {
                    let message = two_numbers("configured point is disabled for CA=", common_address as u64, " IOA=", address as u64);
                    return Err(Iec104ExecutionError { code: Iec104ErrorCode::ProtocolState, message, trace_id: Some(trace_id) });
                }
            },
            None => {},
        }
        let mut i: usize = 0;
        while i < pending.len()
            invariant
                i <= pending@.len(),
                control,
                control == control_type(command_type_id(*command)),
                crate::ids::uuid_v4_text(trace_id@),
                crate::commands::build_failure(common_address, *command, qualifier_mode) is None,
                ioa == spec_primary_ioa(*command),
                slave == normalized_slave_id(slave_id),
                ioa matches Some(a) ==> !admission.spec_is_disabled(
                    match slave { Some(v) => (Some(v), Seq::<char>::empty()), None => (None::<i64>, connection_id@) },
                    common_address, a),
                forall|j: int| 0 <= j < i ==> !((#[trigger] pending@[j]).connection_id@ == connection_id@
                    && pending@[j].common_address == common_address && pending@[j].ioa == ioa),
            decreases pending@.len() - i,
        {
            if str_equals(pending[i].connection_id.as_str(), connection_id) && pending[i].common_address == common_address
                && pending[i].ioa == ioa {
                let shown: u64 = match ioa { Some(a) => a as u64, None => 0 };
                let message = two_numbers("a command is already pending for CA=", common_address as u64, " IOA=", shown);
                return Err(Iec104ExecutionError { code: Iec104ErrorCode::ProtocolState, message, trace_id: Some(trace_id) });
            }
            i = i + 1;
        }
    }
    let record = PendingCommand {
        trace_id: trace_id.clone(),
        connection_id: String::from_str(connection_id),
        type_id: asdu.type_id,
        link_profile_id,
        slave_id: slave,
        common_address,
        ioa,
        select_execute: command_select_execute(command),
        cp56: command_cp56_identity(command),
        target_value_bits,
        qualifier: command_qualifier_identity(command),
        created_at_ms: now_ms,
    };
    let receipt = CommandDispatchReceipt { trace_id, type_id: asdu.type_id, common_address };
    Ok(DispatchPlan { asdu, pending: record, receipt })
}

/// Queuing a command under a trace id the queue does not hold, then removing
/// by that trace id, gives the command back and leaves the queue as it was.
pub proof fn enqueue_then_remove_restores(pending: Seq<PendingCommand>, command: PendingCommand)
    requires
        forall|i: int| 0 <= i < pending.len() ==> (#[trigger] pending[i]).trace_id@ != command.trace_id@,
    ensures
        first_match(pending.push(command), has_trace(command.trace_id@)) == Some(pending.len() as int),
        pending.push(command)[pending.len() as int] == command,
        pending.push(command).remove(pending.len() as int) == pending,
{
    let q = pending.push(command);
    assert forall|j: int| 0 <= j < pending.len() implies !has_trace(command.trace_id@)(#[trigger] q[j]) by {
        assert(q[j] == pending[j]);
    }
    lemma_first_match(q, has_trace(command.trace_id@), pending.len() as int);
    assert(q.remove(pending.len() as int) =~= pending);
}

/// A positive activation confirmation (cause 7) of a general interrogation,
/// counter interrogation, clock synchronization or control command that was
/// not a select confirms the command without completing it, so it stays
/// pending for its termination; the termination (cause 10) then completes it.
pub proof fn activation_confirmation_awaits_termination(cmd: PendingCommand, type_id: u8, cause: u16)
    requires
        (cause / 64) % 2 == 0,
        cmd.select_execute != Some(SelectExecute::Select),
        type_id == 100 || type_id == 101 || type_id == 103 || (45 <= type_id && type_id <= 51)
            || (58 <= type_id && type_id <= 64),
    ensures
        cause % 64 == 7 ==> resolution_of(cmd, type_id, cause) == Some((CommandResolution::ActivationConfirmation, false)),
        cause % 64 == 10 ==> resolution_of(cmd, type_id, cause) == Some((CommandResolution::ActivationTermination, true)),
{
}

/// How the other answers end a command: a negative confirmation (P/N bit set)
/// of anything but a read ends it as refused; a positive confirmation of a
/// select ends the select; a positive confirmation of a type that gets no
/// termination (not an interrogation, clock synchronization or control
/// command) completes it; a deactivation confirmation (cause 9) ends it.
pub proof fn other_answers_end_the_command(cmd: PendingCommand, type_id: u8, cause: u16)
    requires
        cmd.type_id != 102,
    ensures
        (cause / 64) % 2 == 1 ==> resolution_of(cmd, type_id, cause) == Some((CommandResolution::ActivationNegative, true)),
        (cause / 64) % 2 == 0 && cause % 64 == 7 && cmd.select_execute == Some(SelectExecute::Select)
            ==> resolution_of(cmd, type_id, cause) == Some((CommandResolution::SelectionConfirmation, true)),
        (cause / 64) % 2 == 0 && cause % 64 == 7 && cmd.select_execute != Some(SelectExecute::Select)
            && !(type_id == 100 || type_id == 101 || type_id == 103 || (45 <= type_id && type_id <= 51)
                || (58 <= type_id && type_id <= 64))
            ==> resolution_of(cmd, type_id, cause) == Some((CommandResolution::CompletionOnConfirmation, true)),
        (cause / 64) % 2 == 0 && cause % 64 == 9
            ==> resolution_of(cmd, type_id, cause) == Some((CommandResolution::DeactivationConfirmation, true)),
        (cause / 64) % 2 == 0 && !(cause % 64 == 7 || cause % 64 == 9 || cause % 64 == 10)
            ==> resolution_of(cmd, type_id, cause) is None,
{
}

} // verus!
