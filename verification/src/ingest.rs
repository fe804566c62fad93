//! What a master does with a received I-frame beyond decoding it: how a
//! command's resolution is logged and announced, and which decoded points and
//! events the point admission lets through.

use vstd::prelude::*;
use vstd::string::*;

use crate::admission::{resolve_point_scope, MasterPointAdmission, MasterPointScope, ScopeView};
use crate::is_control_command_type_id;
use crate::measurement::{
    append_soe_records, apply_latest_event_timestamp_to_points, keep_last, latest_event_time, numbered_events, DataPoint, SoeEvent,
};
use crate::message_log::MAX_MASTER_SOE_RECORDS;
use crate::point_store::{hydrate_soe_point_names, merge_received_points, merged_store_all, named_event, MasterPointStore};
use crate::message_log::MessageDirection;
use crate::pending::{
    answers_pred, cot_of, read_response_capable, resolution_of, resolve_pending_command_state_with_identity,
    CommandResolution, CommandResponseIdentity, PendingCommand,
};
use crate::registry::TypeDescriptor;
use crate::seqs::{first_match, lemma_filter_push, lemma_first_match};
use crate::text::{decimal, join2, join3, text_with_number};

verus! {

/// The direction a command's resolution is logged with: refusals are errors.
pub fn command_state_direction(state: CommandResolution) -> (r: MessageDirection)
    ensures
        r == (if state is ActivationNegative || state is UnknownInformationObject {
            MessageDirection::Error
        } else {
            MessageDirection::Received
        }),
{
    match state {
        CommandResolution::ActivationNegative | CommandResolution::UnknownInformationObject => MessageDirection::Error,
        _ => MessageDirection::Received,
    }
}

/// Whether a resolution is a successful end the protocol defines, which the
/// interface is told of as a confirmed command.
pub fn command_state_confirms(state: CommandResolution) -> (r: bool)
    ensures
        r == (state is ActivationTermination || state is DeactivationConfirmation
            || state is CompletionOnConfirmation || state is RequestResponse),
{
    match state {
        CommandResolution::ActivationTermination
        | CommandResolution::DeactivationConfirmation
        | CommandResolution::CompletionOnConfirmation
        | CommandResolution::RequestResponse => true,
        _ => false,
    }
}

/// Whether the answer to `command` updates its control point's snapshot: only
/// for a control command, and not when its point is disabled.
pub fn control_snapshot_admitted(admission: &MasterPointAdmission, connection_id: &str, command: &PendingCommand) -> (r: bool)
    ensures
        r == (((45 <= command.type_id <= 51) || (58 <= command.type_id <= 64)) && match command.ioa {
            Some(a) => !admission.spec_is_disabled(
                (match command.slave_id { Some(v) => (Some(v), Seq::<char>::empty()), None => (None::<i64>, connection_id@) }),
                command.common_address, a),
            None => true,
        }),
{
    if !is_control_command_type_id(command.type_id) {
        return false;
    }
    match command.ioa {
        Some(address) => {
            let scope = resolve_point_scope(connection_id, command.slave_id);
            !admission.is_disabled(&scope, command.common_address, address)
        },
        None => true,
    }
}

/// Whether the admission lets a decoded point through; a point without its own
/// common address counts under the frame's.
pub open spec fn point_admitted(a: MasterPointAdmission, scope: ScopeView, frame_ca: u16) -> spec_fn(DataPoint) -> bool {
    |p: DataPoint| !a.spec_is_disabled(scope, match p.common_address { Some(c) => c, None => frame_ca }, p.address)
}

/// Whether the admission lets an event through.
pub open spec fn event_admitted(a: MasterPointAdmission, scope: ScopeView) -> spec_fn(SoeEvent) -> bool {
    |e: SoeEvent| !a.spec_is_disabled(scope, e.common_address, e.ioa)
}

/// The decoded points the admission lets through, in order.
pub fn admit_points(
    admission: &MasterPointAdmission,
    scope: &MasterPointScope,
    frame_ca: u16,
    points: Vec<DataPoint>,
) -> (r: Vec<DataPoint>)
    ensures
        r@ == points@.filter(point_admitted(*admission, scope@, frame_ca)),
{
    let ghost f = point_admitted(*admission, scope@, frame_ca);
    let ghost all = points@;
    let mut rest = points;
    let mut out: Vec<DataPoint> = Vec::new();
    let ghost mut done: Seq<DataPoint> = Seq::empty();
    proof { assert(done.filter(f) =~= Seq::<DataPoint>::empty()); }
    while rest.len() > 0
        invariant
            all == done + rest@,
            f == point_admitted(*admission, scope@, frame_ca),
            out@ == done.filter(f),
        decreases rest@.len(),
    {
        let point = rest.remove(0);
        let ghost p = point;
        let ca = match point.common_address {
            Some(c) => c,
            None => frame_ca,
        };
        let keep = !admission.is_disabled(scope, ca, point.address);
        if keep {
            out.push(point);
        }
        proof {
            lemma_filter_push(done, p, f);
            done = done.push(p);
            assert(all =~= done + rest@);
        }
    }
    assert(done =~= all);
    out
}

/// The events the admission lets through, in order.
pub fn admit_events(
    admission: &MasterPointAdmission,
    scope: &MasterPointScope,
    events: Vec<SoeEvent>,
) -> (r: Vec<SoeEvent>)
    ensures
        r@ == events@.filter(event_admitted(*admission, scope@)),
{
    let ghost f = event_admitted(*admission, scope@);
    let ghost all = events@;
    let mut rest = events;
    let mut out: Vec<SoeEvent> = Vec::new();
    let ghost mut done: Seq<SoeEvent> = Seq::empty();
    proof { assert(done.filter(f) =~= Seq::<SoeEvent>::empty()); }
    while rest.len() > 0
        invariant
            all == done + rest@,
            f == event_admitted(*admission, scope@),
            out@ == done.filter(f),
        decreases rest@.len(),
    {
        let event = rest.remove(0);
        let ghost e = event;
        let keep = !admission.is_disabled(scope, event.common_address, event.ioa);
        if keep {
            out.push(event);
        }
        proof {
            lemma_filter_push(done, e, f);
            done = done.push(e);
            assert(all =~= done + rest@);
        }
    }
    assert(done =~= all);
    out
}

/// The message logged when a response moves a command to `state`.
pub open spec fn command_state_text(trace_id: Seq<char>, state: CommandResolution, type_id: u8, cause: u16) -> Seq<char> {
    "命令状态 trace_id="@ + trace_id + " state="@ + state.spec_as_str() + " type_id="@ + decimal(type_id as nat)
        + " cot="@ + decimal((cause % 64) as nat)
}

/// What a response to a pending command brings about: the command and its new
/// state, how the change is logged, whether the command's control point status
/// is updated, and whether the interface is told the command is confirmed.
#[derive(Debug)]
pub struct CommandResponseOutcome {
    pub command: PendingCommand,
    pub state: CommandResolution,
    pub log_direction: MessageDirection,
    pub log_text: String,
    pub update_control_snapshot: bool,
    pub confirmed: bool,
}

/// Applies a received ASDU to the pending commands of a connection: the first
/// command it answers takes its new state (and leaves the queue when done),
/// and the outcome says how that is logged and shown.
pub fn handle_command_response(
    pending: &mut Vec<PendingCommand>,
    admission: &MasterPointAdmission,
    table: &Vec<TypeDescriptor>,
    connection_id: &str,
    type_id: u8,
    cause: u16,
    common_address: u16,
    ioa: Option<u32>,
    identity: Option<CommandResponseIdentity>,
) -> (r: Option<CommandResponseOutcome>)
    ensures
        ({
            let p = answers_pred(connection_id@, type_id, cot_of(cause), common_address, ioa, identity,
                read_response_capable(table@, type_id));
            match first_match(old(pending)@, p) {
                None => r is None && final(pending)@ == old(pending)@,
                Some(i) => match resolution_of(old(pending)@[i], type_id, cause) {
                    None => r is None && final(pending)@ == old(pending)@,
                    Some((state, done)) => {
                        let cmd = old(pending)@[i];
                        &&& final(pending)@ == (if done { old(pending)@.remove(i) } else { old(pending)@ })
                        &&& r matches Some(o)
                        &&& o.command == cmd
                        &&& o.state == state
                        &&& o.log_direction == (if state is ActivationNegative || state is UnknownInformationObject {
                                MessageDirection::Error } else { MessageDirection::Received })
                        &&& o.log_text@ == command_state_text(cmd.trace_id@, state, type_id, cause)
                        &&& o.update_control_snapshot == (((45 <= cmd.type_id <= 51) || (58 <= cmd.type_id <= 64))
                            && match cmd.ioa {
                                Some(a) => !admission.spec_is_disabled(
                                    (match cmd.slave_id { Some(v) => (Some(v), Seq::<char>::empty()), None => (None::<i64>, connection_id@) }),
                                    cmd.common_address, a),
                                None => true,
                            })
                        &&& o.confirmed == (state is ActivationTermination || state is DeactivationConfirmation
                            || state is CompletionOnConfirmation || state is RequestResponse)
                    },
                },
            }
        }),
{
    let resolved = resolve_pending_command_state_with_identity(pending, table, connection_id, type_id, cause, common_address, ioa, identity);
    match resolved {
        None => None,
        Some((command, state)) => {
            let head = join3("命令状态 trace_id=", command.trace_id.as_str(), " state=");
            let with_state = join2(head.as_str(), state.as_str());
            proof { reveal_strlit(""); }
            let cot: u16 = cause % 64;
            let tail = text_with_number(" type_id=", type_id as u64, " cot=");
            let body = join2(with_state.as_str(), tail.as_str());
            let log_text = text_with_number(body.as_str(), cot as u64, "");
            let update_control_snapshot = control_snapshot_admitted(admission, connection_id, &command);
            let confirmed = command_state_confirms(state);
            let log_direction = command_state_direction(state);
            Some(CommandResponseOutcome { command, state, log_direction, log_text, update_control_snapshot, confirmed })
        },
    }
}

/// A slave of a link profile as the store lists it: its row id and its common address.
#[derive(Clone, Copy, Debug, PartialEq, Eq, Structural)]
pub struct SlaveAddressRow {
    pub id: Option<i64>,
    pub common_address: u16,
}

pub open spec fn has_common_address(common_address: u16) -> spec_fn(SlaveAddressRow) -> bool {
    |row: SlaveAddressRow| row.common_address == common_address
}

/// The slave id a received ASDU belongs to: that of the first slave of the
/// link profile with the ASDU's common address. `rows` is `None` where the
/// connection has no profile or its slaves could not be read.
pub fn resolve_slave_id(rows: Option<&Vec<SlaveAddressRow>>, common_address: u16) -> (r: Option<i64>)
    ensures
        match rows {
            None => r is None,
            Some(v) => match first_match(v@, has_common_address(common_address)) {
                Some(i) => r == v@[i].id,
                None => r is None,
            },
        },
{
    let v = match rows {
        None => { return None; },
        Some(v) => v,
    };
    let ghost p = has_common_address(common_address);
    let mut i: usize = 0;
    while i < v.len()
        invariant
            i <= v@.len(),
            rows == Some(v),
            p == has_common_address(common_address),
            forall|j: int| 0 <= j < i ==> !p(#[trigger] v@[j]),
        decreases v@.len() - i,
    {
        if v[i].common_address == common_address {
            assert(p(v@[i as int]));
            proof { lemma_first_match(v@, p, i as int); }
            return v[i].id;
        }
        assert(!p(v@[i as int]));
        i = i + 1;
    }
    proof { lemma_first_match(v@, p, i as int); }
    None
}

/// The points with the event time of the last of `events` about each, when
/// there are events.
pub open spec fn with_event_times(points: Seq<DataPoint>, events: Seq<SoeEvent>) -> Seq<DataPoint> {
    if events.len() == 0 {
        points
    } else {
        Seq::new(points.len(), |k: int| DataPoint { latest_event_timestamp_ms: latest_event_time(events, points[k].address), ..points[k] })
    }
}

/// The events with the names the store knows for their points.
pub open spec fn named_events(m: Map<crate::admission::KeyView, DataPoint>, scope: ScopeView, events: Seq<SoeEvent>) -> Seq<SoeEvent> {
    Seq::new(events.len(), |k: int| named_event(m, scope, events[k]))
}

/// Stores what a received ASDU reported: the points and events the admission
/// lets through; the points take the time of the last event about them and
/// are merged into the store; the events take the names of their points and
/// are recorded. Returns whether points and whether events were stored.
pub fn store_received_measurements(
    store: &mut MasterPointStore,
    soe_records: &mut Vec<SoeEvent>,
    next_soe_id: &mut u64,
    admission: &MasterPointAdmission,
    scope: &MasterPointScope,
    frame_ca: u16,
    cause: u16,
    table: &Vec<TypeDescriptor>,
    points: Vec<DataPoint>,
    events: Vec<SoeEvent>,
) -> (r: (bool, bool))
    requires
        old(store).wf(),
        *old(next_soe_id) + events@.len() <= u64::MAX,
    ensures
        ({
            let admitted_points = points@.filter(point_admitted(*admission, scope@, frame_ca));
            let admitted_events = events@.filter(event_admitted(*admission, scope@));
            &&& final(store).wf()
            &&& final(store)@ == merged_store_all(old(store)@, scope@, cause, table@, with_event_times(admitted_points, admitted_events))
            &&& admitted_events.len() == 0 ==> *final(soe_records) == *old(soe_records) && *final(next_soe_id) == *old(next_soe_id)
            &&& admitted_events.len() > 0 ==> final(soe_records)@ == keep_last(old(soe_records)@
                    + numbered_events(named_events(final(store)@, scope@, admitted_events), *old(next_soe_id)), MAX_MASTER_SOE_RECORDS as nat)
                && *final(next_soe_id) == *old(next_soe_id) + admitted_events.len()
            &&& r == (admitted_points.len() > 0, admitted_events.len() > 0)
        }),
{
    let ghost pf = point_admitted(*admission, scope@, frame_ca);
    let ghost ef = event_admitted(*admission, scope@);
    proof { events@.lemma_filter_len(ef); }
    let mut points = admit_points(admission, scope, frame_ca, points);
    let mut events = admit_events(admission, scope, events);
    let ghost admitted_points = points@;
    let has_events = events.len() > 0;
    if has_events {
        apply_latest_event_timestamp_to_points(&mut points, &events);
    }
    assert(points@ =~= with_event_times(admitted_points, events@));
    let has_points = points.len() > 0;
    if has_points {
        merge_received_points(store, scope, cause, table, &points);
    } else {
        assert(points@ =~= Seq::<DataPoint>::empty());
    }
    if has_events {
        let ghost admitted_events = events@;
        hydrate_soe_point_names(store, scope, &mut events);
        assert(events@ =~= named_events(store@, scope@, admitted_events));
        append_soe_records(soe_records, next_soe_id, &events, MAX_MASTER_SOE_RECORDS);
    }
    (has_points, has_events)
}

} // verus!
