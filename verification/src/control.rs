//! The control status a master shows for a control point: what dispatching a
//! command, its responses and its timeout make of it.

use vstd::prelude::*;

use crate::commands::SelectExecute;
use crate::decoded::DecodedQualityCommon;
use crate::measurement::{DataPoint, DataPointQualityDetail};
use crate::pending::CommandResolution;
use crate::registry::{iec104_default_point_name, iec104_type_name, spec_name_prefix, spec_type_name, TypeDescriptor};
use crate::text::decimal;
use crate::types::PointSource;

verus! {

/// Where a control command stands.
#[derive(Clone, Copy, Debug, PartialEq, Eq, Structural)]
pub enum ControlStatusKind {
    Idle,
    Selected,
    Executing,
    Completed,
    Ng,
    Timeout,
}

/// Which step of a control timed out.
#[derive(Clone, Copy, Debug, PartialEq, Eq, Structural)]
pub enum ControlTimeoutType {
    Select,
    Execute,
}

/// The control status of a point. Times are Unix milliseconds; the command's
/// time tag is kept as its display text.
#[derive(Clone, Debug)]
pub struct ControlStatusSnapshot {
    pub state: ControlStatusKind,
    pub updated_at_ms: i64,
    pub latest_cause: Option<u16>,
    pub actcon_negative: Option<bool>,
    pub actcon_at_ms: Option<i64>,
    pub actterm_at_ms: Option<i64>,
    pub timeout_type: Option<ControlTimeoutType>,
    pub select_execute: Option<bool>,
    pub command_cp56: Option<String>,
}

impl ControlStatusSnapshot {
    /// A copy of the status.
    pub fn duplicate(&self) -> (r: Self)
        ensures
            r == *self,
    {
        ControlStatusSnapshot {
            state: self.state,
            updated_at_ms: self.updated_at_ms,
            latest_cause: self.latest_cause,
            actcon_negative: self.actcon_negative,
            actcon_at_ms: self.actcon_at_ms,
            actterm_at_ms: self.actterm_at_ms,
            timeout_type: self.timeout_type,
            select_execute: self.select_execute,
            command_cp56: match &self.command_cp56 { Some(t) => Some(t.clone()), None => None },
        }
    }
}

pub open spec fn se_bit(se: Option<SelectExecute>) -> Option<bool> {
    match se {
        Some(s) => Some(s.spec_is_select()),
        None => None,
    }
}

/// The state a dispatched command puts its point in.
pub open spec fn dispatch_state(se: Option<SelectExecute>) -> ControlStatusKind {
    match se {
        Some(SelectExecute::Select) => ControlStatusKind::Selected,
        Some(SelectExecute::Cancel) => ControlStatusKind::Idle,
        _ => ControlStatusKind::Executing,
    }
}

/// The status after a command to the point was sent at `now_ms`. A command
/// without time tag keeps the time tag text the status had.
pub fn dispatch_snapshot(
    previous: Option<&ControlStatusSnapshot>,
    select_execute: Option<SelectExecute>,
    command_cp56: Option<String>,
    now_ms: i64,
) -> (r: ControlStatusSnapshot)
    ensures
        r.state == dispatch_state(select_execute),
        r.updated_at_ms == now_ms,
        r.latest_cause == Some(match select_execute { Some(s) => s.spec_cause() as u16, None => 6u16 }),
        r.actcon_negative is None,
        r.actcon_at_ms is None,
        r.actterm_at_ms is None,
        r.timeout_type is None,
        r.select_execute == se_bit(select_execute),
        r.command_cp56 == (match command_cp56 {
            Some(t) => Some(t),
            None => match previous { Some(p) => p.command_cp56, None => None },
        }),
{
    let state = match select_execute {
        Some(SelectExecute::Select) => ControlStatusKind::Selected,
        Some(SelectExecute::Cancel) => ControlStatusKind::Idle,
        _ => ControlStatusKind::Executing,
    };
    let cause: u16 = match select_execute { Some(s) => s.cause() as u16, None => 6 };
    let text = match command_cp56 {
        Some(t) => Some(t),
        None => match previous {
            Some(p) => match &p.command_cp56 { Some(t) => Some(t.clone()), None => None },
            None => None,
        },
    };
    ControlStatusSnapshot {
        state,
        updated_at_ms: now_ms,
        latest_cause: Some(cause),
        actcon_negative: None,
        actcon_at_ms: None,
        actterm_at_ms: None,
        timeout_type: None,
        select_execute: match select_execute { Some(s) => Some(s.is_select()), None => None },
        command_cp56: text,
    }
}

/// The status a point starts from when it has none.
pub open spec fn blank_status(select_execute: Option<SelectExecute>, now_ms: i64) -> ControlStatusSnapshot {
    ControlStatusSnapshot {
        state: ControlStatusKind::Idle,
        updated_at_ms: now_ms,
        latest_cause: None,
        actcon_negative: None,
        actcon_at_ms: None,
        actterm_at_ms: None,
        timeout_type: None,
        select_execute: se_bit(select_execute),
        command_cp56: None,
    }
}

fn base_status(previous: Option<ControlStatusSnapshot>, select_execute: Option<SelectExecute>, now_ms: i64) -> (r: ControlStatusSnapshot)
    ensures
        r == (match previous { Some(p) => p, None => blank_status(select_execute, now_ms) }),
{
    match previous {
        Some(p) => p,
        None => ControlStatusSnapshot {
            state: ControlStatusKind::Idle,
            updated_at_ms: now_ms,
            latest_cause: None,
            actcon_negative: None,
            actcon_at_ms: None,
            actterm_at_ms: None,
            timeout_type: None,
            select_execute: match select_execute { Some(s) => Some(s.is_select()), None => None },
            command_cp56: None,
        },
    }
}

/// The status after a response with `cause` resolved the point's command as
/// `resolution` at `now_ms`. A pending timeout mark is cleared.
pub open spec fn spec_response_status(base: ControlStatusSnapshot, resolution: CommandResolution, cause: u16, now_ms: i64) -> ControlStatusSnapshot {
    let b = ControlStatusSnapshot { updated_at_ms: now_ms, latest_cause: Some(cause), timeout_type: None, ..base };
    match resolution {
        CommandResolution::ActivationNegative => ControlStatusSnapshot {
            state: ControlStatusKind::Ng, actcon_negative: Some(true), actcon_at_ms: Some(now_ms), ..b },
        CommandResolution::SelectionConfirmation => ControlStatusSnapshot {
            state: ControlStatusKind::Selected, actcon_negative: Some(false), actcon_at_ms: Some(now_ms), ..b },
        CommandResolution::ActivationConfirmation => ControlStatusSnapshot {
            state: ControlStatusKind::Executing, actcon_negative: Some(false), actcon_at_ms: Some(now_ms), ..b },
        CommandResolution::CompletionOnConfirmation => ControlStatusSnapshot {
            state: ControlStatusKind::Completed, actcon_negative: Some(false), actcon_at_ms: Some(now_ms), ..b },
        CommandResolution::ActivationTermination => ControlStatusSnapshot {
            state: ControlStatusKind::Completed, actterm_at_ms: Some(now_ms), ..b },
        CommandResolution::DeactivationConfirmation => ControlStatusSnapshot { state: ControlStatusKind::Idle, ..b },
        _ => b,
    }
}

/// Applies a response to the status of a control point.
pub fn response_snapshot(
    previous: Option<ControlStatusSnapshot>,
    resolution: CommandResolution,
    cause: u16,
    select_execute: Option<SelectExecute>,
    now_ms: i64,
) -> (r: ControlStatusSnapshot)
    ensures
        r == spec_response_status(match previous { Some(p) => p, None => blank_status(select_execute, now_ms) }, resolution, cause, now_ms),
{
    let mut s = base_status(previous, select_execute, now_ms);
    s.updated_at_ms = now_ms;
    s.latest_cause = Some(cause);
    s.timeout_type = None;
    match resolution {
        CommandResolution::ActivationNegative => {
            s.state = ControlStatusKind::Ng;
            s.actcon_negative = Some(true);
            s.actcon_at_ms = Some(now_ms);
        },
        CommandResolution::SelectionConfirmation => {
            s.state = ControlStatusKind::Selected;
            s.actcon_negative = Some(false);
            s.actcon_at_ms = Some(now_ms);
        },
        CommandResolution::ActivationConfirmation => {
            s.state = ControlStatusKind::Executing;
            s.actcon_negative = Some(false);
            s.actcon_at_ms = Some(now_ms);
        },
        CommandResolution::CompletionOnConfirmation => {
            s.state = ControlStatusKind::Completed;
            s.actcon_negative = Some(false);
            s.actcon_at_ms = Some(now_ms);
        },
        CommandResolution::ActivationTermination => {
            s.state = ControlStatusKind::Completed;
            s.actterm_at_ms = Some(now_ms);
        },
        CommandResolution::DeactivationConfirmation => {
            s.state = ControlStatusKind::Idle;
        },
        _ => {},
    }
    s
}

/// The status after the point's command timed out at `now_ms`: a select or
/// cancel step times out as a selection, anything else as an execution.
pub fn timeout_snapshot(previous: Option<ControlStatusSnapshot>, select_execute: Option<SelectExecute>, now_ms: i64) -> (r: ControlStatusSnapshot)
    ensures
        r == (ControlStatusSnapshot {
            state: ControlStatusKind::Timeout,
            updated_at_ms: now_ms,
            timeout_type: Some(match select_execute {
                Some(SelectExecute::Select) | Some(SelectExecute::Cancel) => ControlTimeoutType::Select,
                _ => ControlTimeoutType::Execute,
            }),
            ..(match previous { Some(p) => p, None => blank_status(select_execute, now_ms) })
        }),
{
    let mut s = base_status(previous, select_execute, now_ms);
    s.state = ControlStatusKind::Timeout;
    s.updated_at_ms = now_ms;
    s.timeout_type = Some(match select_execute {
        Some(SelectExecute::Select) | Some(SelectExecute::Cancel) => ControlTimeoutType::Select,
        _ => ControlTimeoutType::Execute,
    });
    s
}

/// A select confirmed and then an execute terminated leaves the point completed,
/// with both the confirmation and the termination time recorded; a later
/// response never carries a timeout mark.
pub proof fn select_then_execute_completes(
    previous: Option<ControlStatusSnapshot>,
    select_execute: Option<SelectExecute>,
    t1: i64,
    t2: i64,
    c1: u16,
    c2: u16,
)
    ensures
        ({
            let base = match previous { Some(p) => p, None => blank_status(select_execute, t1) };
            let after_select = spec_response_status(base, CommandResolution::SelectionConfirmation, c1, t1);
            let after_term = spec_response_status(after_select, CommandResolution::ActivationTermination, c2, t2);
            &&& after_select.state == ControlStatusKind::Selected
            &&& after_term.state == ControlStatusKind::Completed
            &&& after_term.actcon_at_ms == Some(t1)
            &&& after_term.actterm_at_ms == Some(t2)
            &&& after_term.actcon_negative == Some(false)
            &&& after_term.timeout_type is None
            &&& after_term.latest_cause == Some(c2)
        }),
{
}

/// The control point a command's status is kept on: the known point, tied to
/// the command's connection (keeping the profile and slave it had, else taking
/// the command's) and common address; or, when the point is unknown, a new
/// manual point with the type's default name and type name, value zero and
/// good quality, created at `now_ms`.
pub fn ensure_control_point(
    existing: Option<DataPoint>,
    table: &Vec<TypeDescriptor>,
    connection_id: &str,
    link_profile_id: Option<i64>,
    slave_id: Option<i64>,
    common_address: u16,
    address: u32,
    type_id: u8,
    now_ms: i64,
) -> (r: DataPoint)
    ensures
        r.connection_id@ == connection_id@,
        r.common_address == Some(common_address),
        match existing {
            Some(p) => r == (DataPoint {
                connection_id: r.connection_id,
                link_profile_id: if p.link_profile_id is Some { p.link_profile_id } else { link_profile_id },
                slave_id: if p.slave_id is Some { p.slave_id } else { slave_id },
                common_address: Some(common_address),
                ..p
            }),
            None => {
                &&& r.link_profile_id == link_profile_id
                &&& r.slave_id == slave_id
                &&& r.address == address
                &&& r.name@ == spec_name_prefix(type_id) + "_"@ + decimal(address as nat)
                &&& r.description is None
                &&& r.control_ioa is None
                &&& r.gi_group is None
                &&& r.counter_group is None
                &&& r.type_id == type_id
                &&& r.data_type@ == spec_type_name(table@, type_id)
                &&& r.value_bits == 0
                &&& r.quality == 0
                &&& r.quality_common == Some(DecodedQualityCommon { iv: false, nt: false, sb: false, bl: false })
                &&& r.quality_detail == Some(DataPointQualityDetail::Absent)
                &&& r.business_usable
                &&& r.timestamp_ms == now_ms
                &&& r.latest_event_timestamp_ms is None
                &&& r.timestamp_detail is None
                &&& r.report_count is None
                &&& r.latest_cause is None
                &&& r.point_source == Some(PointSource::Manual)
                &&& r.control_status_snapshot is None
            },
        },
{
    match existing {
        Some(p) => {
            let profile = if p.link_profile_id.is_some() { p.link_profile_id } else { link_profile_id };
            let slave = if p.slave_id.is_some() { p.slave_id } else { slave_id };
            DataPoint {
                connection_id: String::from_str(connection_id),
                link_profile_id: profile,
                slave_id: slave,
                common_address: Some(common_address),
                ..p
            }
        },
        None => DataPoint {
            connection_id: String::from_str(connection_id),
            link_profile_id,
            slave_id,
            common_address: Some(common_address),
            address,
            name: iec104_default_point_name(type_id, address),
            description: None,
            control_ioa: None,
            gi_group: None,
            counter_group: None,
            type_id,
            data_type: iec104_type_name(table, type_id),
            value_bits: 0,
            quality: 0,
            quality_common: Some(DecodedQualityCommon { iv: false, nt: false, sb: false, bl: false }),
            quality_detail: Some(DataPointQualityDetail::Absent),
            business_usable: true,
            timestamp_ms: now_ms,
            latest_event_timestamp_ms: None,
            timestamp_detail: None,
            report_count: None,
            latest_cause: None,
            point_source: Some(PointSource::Manual),
            control_status_snapshot: None,
        },
    }
}

} // verus!
