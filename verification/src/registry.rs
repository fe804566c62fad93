//! What the simulator supports of each IEC 104 type identification: the
//! capability record derived from a type descriptor, point roles, COT
//! lifecycles and default point names.

use vstd::prelude::*;
use vstd::string::*;

use crate::strutil::{trim_seq, trimmed_upper_equals, upper_eq};
use crate::text::{decimal, join2, text_then_number};
use crate::types::{PointDef, PointSource};

verus! {

/// Information family of a type identification.
#[derive(Clone, Copy, Debug, PartialEq, Eq, Structural)]
pub enum TypeFamily {
    SinglePoint,
    DoublePoint,
    StepPosition,
    Bitstring,
    Normalized,
    Scaled,
    ShortFloat,
    IntegratedTotal,
    Protection,
    PackedStatus,
    Control,
    Initialization,
    Security,
    SystemCommand,
    Parameter,
    FileTransfer,
}

/// Kind of value an information object carries.
#[derive(Clone, Copy, Debug, PartialEq, Eq, Structural)]
pub enum ValueModel {
    Absent,
    Boolean,
    DoublePoint,
    StepPosition,
    Bitstring32,
    Normalized,
    ScaledI16,
    Float32,
    Counter,
    Structured,
}

/// Whether a type describes a monitored point, a control point or neither.
#[derive(Clone, Copy, Debug, PartialEq, Eq, Structural)]
pub enum PointRole {
    Monitor,
    Control,
    NonPoint,
}

/// How a simulated value is entered.
#[derive(Clone, Copy, Debug, PartialEq, Eq, Structural)]
pub enum SimulationInputKind {
    Select,
    Integer,
    Float,
}

/// Quality descriptor carried by an information object.
#[derive(Clone, Copy, Debug, PartialEq, Eq, Structural)]
pub enum QualityModel {
    Absent,
    Siq,
    Diq,
    Qds,
    Bcr,
    Qdp,
}

/// Time tag carried by an information object.
#[derive(Clone, Copy, Debug, PartialEq, Eq, Structural)]
pub enum TimestampModel {
    Absent,
    Cp24,
    Cp56,
}

/// Cause-of-transmission sequence a type follows.
#[derive(Clone, Copy, Debug, PartialEq, Eq, Structural)]
pub enum CotLifecycle {
    Report,
    SelectExecute,
    ActivationTermination,
    ActivationConfirmation,
    RequestResponse,
    FileSession,
    ParserOnly,
}

/// The set of waveforms a simulated point may follow.
#[derive(Clone, Copy, Debug, PartialEq, Eq, Structural)]
pub enum WaveformSet {
    /// fixed, step, pulse, square
    Discrete,
    /// fixed, step, saw-up, saw-down, triangle, stair, random-walk
    StepPosition,
    /// every waveform, sine included
    Continuous,
    /// fixed, counter
    Counter,
}

/// How a monitored point of some value model may be simulated. The numeric
/// range and step of the input belong to the value model and are given by the
/// application layer.
#[derive(Clone, Copy, Debug, PartialEq, Eq, Structural)]
pub struct SimulationCapability {
    pub waveforms: WaveformSet,
    pub default_waveform: DefaultWaveform,
    pub input_kind: SimulationInputKind,
    pub precision: u8,
}

/// The waveform a simulated point starts with.
#[derive(Clone, Copy, Debug, PartialEq, Eq, Structural)]
pub enum DefaultWaveform {
    Step,
    Stair,
    Fixed,
    Sine,
    Counter,
}

/// What the protocol tables say of one type identification.
#[derive(Clone, Debug)]
pub struct TypeDescriptor {
    pub type_id: u8,
    pub name: String,
    pub ioa_len: usize,
    pub family: TypeFamily,
    pub value_kind: ValueModel,
    pub quality_kind: QualityModel,
    pub timestamp_kind: TimestampModel,
}

/// What the simulator supports of one type identification.
#[derive(Clone, Debug)]
pub struct Iec104Capability {
    pub type_id: u8,
    pub name: String,
    pub ioa_length: usize,
    pub family: TypeFamily,
    pub point_role: PointRole,
    pub master_send: bool,
    pub master_receive: bool,
    pub slave_receive: bool,
    pub slave_upload: bool,
    pub point_configurable: bool,
    pub parser_only: bool,
    pub value_model: ValueModel,
    pub quality_model: QualityModel,
    pub timestamp_model: TimestampModel,
    pub cot_lifecycle: CotLifecycle,
    pub simulation: Option<SimulationCapability>,
}

pub open spec fn in_range(t: u8, lo: u8, hi: u8) -> bool {
    lo <= t <= hi
}

/// Monitored measurement types the simulator can produce and consume.
pub open spec fn measurement_supported(t: u8) -> bool {
    in_range(t, 1, 16) || in_range(t, 30, 37)
}

/// Control command types (single to bitstring, with and without time tag).
pub open spec fn control_type(t: u8) -> bool {
    in_range(t, 45, 51) || in_range(t, 58, 64)
}

pub open spec fn system_supported(t: u8) -> bool {
    in_range(t, 100, 105) || t == 107
}

pub open spec fn file_type(t: u8) -> bool {
    in_range(t, 120, 127)
}

pub open spec fn spec_master_send(t: u8) -> bool {
    control_type(t) || in_range(t, 100, 105) || file_type(t)
}

pub open spec fn spec_master_receive(t: u8) -> bool {
    measurement_supported(t) || t == 20 || t == 21 || control_type(t) || system_supported(t) || file_type(t)
}

pub open spec fn spec_slave_receive(t: u8) -> bool {
    control_type(t) || system_supported(t) || file_type(t)
}

pub open spec fn spec_slave_upload(t: u8) -> bool {
    measurement_supported(t) || control_type(t) || system_supported(t) || file_type(t)
}

pub open spec fn spec_parser_only(t: u8) -> bool {
    !(spec_master_send(t) || spec_master_receive(t) || spec_slave_receive(t) || spec_slave_upload(t))
}

pub open spec fn spec_point_role(t: u8) -> PointRole {
    if in_range(t, 1, 21) || in_range(t, 30, 40) {
        PointRole::Monitor
    } else if control_type(t) {
        PointRole::Control
    } else {
        PointRole::NonPoint
    }
}

pub open spec fn spec_lifecycle(t: u8, parser_only: bool) -> CotLifecycle {
    if parser_only {
        CotLifecycle::ParserOnly
    } else if in_range(t, 45, 50) || in_range(t, 58, 63) {
        CotLifecycle::SelectExecute
    } else if t == 51 || t == 64 || t == 100 || t == 101 || t == 103 {
        CotLifecycle::ActivationTermination
    } else if t == 104 || t == 105 || t == 107 {
        CotLifecycle::ActivationConfirmation
    } else if t == 102 {
        CotLifecycle::RequestResponse
    } else if file_type(t) {
        CotLifecycle::FileSession
    } else {
        CotLifecycle::Report
    }
}

pub open spec fn spec_simulation(m: ValueModel) -> Option<SimulationCapability> {
    match m {
        ValueModel::Boolean => Some(SimulationCapability {
            waveforms: WaveformSet::Discrete, default_waveform: DefaultWaveform::Step,
            input_kind: SimulationInputKind::Select, precision: 0,
        }),
        ValueModel::DoublePoint => Some(SimulationCapability {
            waveforms: WaveformSet::Discrete, default_waveform: DefaultWaveform::Step,
            input_kind: SimulationInputKind::Select, precision: 0,
        }),
        ValueModel::StepPosition => Some(SimulationCapability {
            waveforms: WaveformSet::StepPosition, default_waveform: DefaultWaveform::Stair,
            input_kind: SimulationInputKind::Integer, precision: 0,
        }),
        ValueModel::Bitstring32 => Some(SimulationCapability {
            waveforms: WaveformSet::Counter, default_waveform: DefaultWaveform::Fixed,
            input_kind: SimulationInputKind::Integer, precision: 0,
        }),
        ValueModel::Normalized => Some(SimulationCapability {
            waveforms: WaveformSet::Continuous, default_waveform: DefaultWaveform::Sine,
            input_kind: SimulationInputKind::Float, precision: 4,
        }),
        ValueModel::ScaledI16 => Some(SimulationCapability {
            waveforms: WaveformSet::Continuous, default_waveform: DefaultWaveform::Sine,
            input_kind: SimulationInputKind::Integer, precision: 0,
        }),
        ValueModel::Float32 => Some(SimulationCapability {
            waveforms: WaveformSet::Continuous, default_waveform: DefaultWaveform::Sine,
            input_kind: SimulationInputKind::Float, precision: 4,
        }),
        ValueModel::Counter => Some(SimulationCapability {
            waveforms: WaveformSet::Counter, default_waveform: DefaultWaveform::Counter,
            input_kind: SimulationInputKind::Integer, precision: 0,
        }),
        ValueModel::Absent | ValueModel::Structured => None,
    }
}

/// The capability record that `capability_from_descriptor` derives from `d`.
pub open spec fn capability_matches(c: Iec104Capability, d: TypeDescriptor) -> bool {
    let t = d.type_id;
    &&& c.type_id == t
    &&& c.name@ == d.name@
    &&& c.ioa_length == d.ioa_len
    &&& c.family == d.family
    &&& c.point_role == spec_point_role(t)
    &&& c.master_send == spec_master_send(t)
    &&& c.master_receive == spec_master_receive(t)
    &&& c.slave_receive == spec_slave_receive(t)
    &&& c.slave_upload == spec_slave_upload(t)
    &&& c.point_configurable == (measurement_supported(t) || control_type(t))
    &&& c.parser_only == spec_parser_only(t)
    &&& c.value_model == d.value_kind
    &&& c.quality_model == d.quality_kind
    &&& c.timestamp_model == d.timestamp_kind
    &&& c.cot_lifecycle == spec_lifecycle(t, spec_parser_only(t))
    &&& c.simulation == (if measurement_supported(t) { spec_simulation(d.value_kind) } else { None })
}

/// The role a point of type `type_id` plays.
pub fn point_role_for_type(type_id: u8) -> (r: PointRole)
    ensures
        r == spec_point_role(type_id),
{
    if (1 <= type_id && type_id <= 21) || (30 <= type_id && type_id <= 40) {
        PointRole::Monitor
    } else if (45 <= type_id && type_id <= 51) || (58 <= type_id && type_id <= 64) {
        PointRole::Control
    } else {
        PointRole::NonPoint
    }
}

/// The cause-of-transmission lifecycle of `type_id`.
pub fn lifecycle_for_type(type_id: u8, parser_only: bool) -> (r: CotLifecycle)
    ensures
        r == spec_lifecycle(type_id, parser_only),
{
    if parser_only {
        CotLifecycle::ParserOnly
    } else if (45 <= type_id && type_id <= 50) || (58 <= type_id && type_id <= 63) {
        CotLifecycle::SelectExecute
    } else if type_id == 51 || type_id == 64 || type_id == 100 || type_id == 101 || type_id == 103 {
        CotLifecycle::ActivationTermination
    } else if type_id == 104 || type_id == 105 || type_id == 107 {
        CotLifecycle::ActivationConfirmation
    } else if type_id == 102 {
        CotLifecycle::RequestResponse
    } else if 120 <= type_id && type_id <= 127 {
        CotLifecycle::FileSession
    } else {
        CotLifecycle::Report
    }
}

/// How a monitored point with values of `value_model` may be simulated.
pub fn simulation_capability(value_model: ValueModel) -> (r: Option<SimulationCapability>)
    ensures
        r == spec_simulation(value_model),
{
    match value_model {
        ValueModel::Boolean | ValueModel::DoublePoint => Some(SimulationCapability {
            waveforms: WaveformSet::Discrete, default_waveform: DefaultWaveform::Step,
            input_kind: SimulationInputKind::Select, precision: 0,
        }),
        ValueModel::StepPosition => Some(SimulationCapability {
            waveforms: WaveformSet::StepPosition, default_waveform: DefaultWaveform::Stair,
            input_kind: SimulationInputKind::Integer, precision: 0,
        }),
        ValueModel::Bitstring32 => Some(SimulationCapability {
            waveforms: WaveformSet::Counter, default_waveform: DefaultWaveform::Fixed,
            input_kind: SimulationInputKind::Integer, precision: 0,
        }),
        ValueModel::Normalized | ValueModel::Float32 => Some(SimulationCapability {
            waveforms: WaveformSet::Continuous, default_waveform: DefaultWaveform::Sine,
            input_kind: SimulationInputKind::Float, precision: 4,
        }),
        ValueModel::ScaledI16 => Some(SimulationCapability {
            waveforms: WaveformSet::Continuous, default_waveform: DefaultWaveform::Sine,
            input_kind: SimulationInputKind::Integer, precision: 0,
        }),
        ValueModel::Counter => Some(SimulationCapability {
            waveforms: WaveformSet::Counter, default_waveform: DefaultWaveform::Counter,
            input_kind: SimulationInputKind::Integer, precision: 0,
        }),
        ValueModel::Absent | ValueModel::Structured => None,
    }
}

/// Derives the capability record of one type descriptor.
pub fn capability_from_descriptor(descriptor: &TypeDescriptor) -> (r: Iec104Capability)
    ensures
        capability_matches(r, *descriptor),
{
    let type_id = descriptor.type_id;
    let measurement = (1 <= type_id && type_id <= 16) || (30 <= type_id && type_id <= 37);
    let master_measurement_receive = measurement || type_id == 20 || type_id == 21;
    let control = (45 <= type_id && type_id <= 51) || (58 <= type_id && type_id <= 64);
    let system = (100 <= type_id && type_id <= 105) || type_id == 107;
    let file = 120 <= type_id && type_id <= 127;
    let master_send = control || (100 <= type_id && type_id <= 105) || file;
    let master_receive = master_measurement_receive || control || system || file;
    let slave_receive = control || system || file;
    let slave_upload = measurement || control || system || file;
    let parser_only = !(master_send || master_receive || slave_receive || slave_upload);
    let value_model = descriptor.value_kind;
    let simulation = if measurement { simulation_capability(value_model) } else { None };
    Iec104Capability {
        type_id,
        name: descriptor.name.clone(),
        ioa_length: descriptor.ioa_len,
        family: descriptor.family,
        point_role: point_role_for_type(type_id),
        master_send,
        master_receive,
        slave_receive,
        slave_upload,
        point_configurable: measurement || control,
        parser_only,
        value_model,
        quality_model: descriptor.quality_kind,
        timestamp_model: descriptor.timestamp_kind,
        cot_lifecycle: lifecycle_for_type(type_id, parser_only),
        simulation,
    }
}

/// Index of the first descriptor of `table` with type identification `type_id`.
pub open spec fn first_index_of_type(table: Seq<TypeDescriptor>, type_id: u8) -> Option<int> {
    if exists|i: int| 0 <= i < table.len() && table[i].type_id == type_id {
        Some(choose|i: int| 0 <= i < table.len() && table[i].type_id == type_id
            && forall|j: int| 0 <= j < i ==> table[j].type_id != type_id)
    } else {
        None
    }
}

/// Looks `type_id` up in the descriptor table; the first matching descriptor decides.
pub fn lookup_capability(table: &Vec<TypeDescriptor>, type_id: u8) -> (r: Option<Iec104Capability>)
    ensures
        r is None <==> first_index_of_type(table@, type_id) is None,
        r matches Some(c) ==> capability_matches(c, table@[first_index_of_type(table@, type_id)->0]),
{
    proof { lemma_first_index(table@, type_id); }
    let mut i: usize = 0;
    while i < table.len()
        invariant
            i <= table@.len(),
            forall|j: int| 0 <= j < i ==> table@[j].type_id != type_id,
        decreases table@.len() - i,
    {
        if table[i].type_id == type_id {
            let c = capability_from_descriptor(&table[i]);
            assert(first_index_of_type(table@, type_id) == Some(i as int));
            return Some(c);
        }
        i = i + 1;
    }
    None
}

/// The capability records of every descriptor of the table, in table order.
pub fn all_capabilities(table: &Vec<TypeDescriptor>) -> (r: Vec<Iec104Capability>)
    ensures
        r@.len() == table@.len(),
        forall|i: int| 0 <= i < table@.len() ==> #[trigger] capability_matches(r@[i], table@[i]),
{
    let mut out: Vec<Iec104Capability> = Vec::new();
    let mut i: usize = 0;
    while i < table.len()
        invariant
            i <= table@.len(),
            out@.len() == i,
            forall|j: int| 0 <= j < i ==> #[trigger] capability_matches(out@[j], table@[j]),
        decreases table@.len() - i,
    {
        let c = capability_from_descriptor(&table[i]);
        out.push(c);
        i = i + 1;
    }
    out
}

/// The family `type_id` has in the table, if the table lists it.
pub open spec fn table_family(table: Seq<TypeDescriptor>, type_id: u8) -> Option<TypeFamily> {
    match first_index_of_type(table, type_id) {
        Some(i) => Some(table[i].family),
        None => None,
    }
}

/// Whether two type identifications are both listed and belong to one family.
pub fn same_type_family(table: &Vec<TypeDescriptor>, left: u8, right: u8) -> (r: bool)
    ensures
        r == (table_family(table@, left) is Some && table_family(table@, left) == table_family(table@, right)),
{
    let l = lookup_capability(table, left);
    let rr = lookup_capability(table, right);
    match (l, rr) {
        (Some(a), Some(b)) => a.family == b.family,
        _ => false,
    }
}

proof fn lemma_first_index(table: Seq<TypeDescriptor>, type_id: u8)
    ensures
        first_index_of_type(table, type_id) is None <==> (forall|i: int| 0 <= i < table.len() ==> table[i].type_id != type_id),
        forall|i: int| 0 <= i < table.len() && table[i].type_id == type_id
            && (forall|j: int| 0 <= j < i ==> table[j].type_id != type_id)
            ==> first_index_of_type(table, type_id) == Some(i),
{
    if exists|i: int| 0 <= i < table.len() && table[i].type_id == type_id {
        let w = choose|i: int| 0 <= i < table.len() && table[i].type_id == type_id;
        lemma_least_witness(table, type_id, w);
        let k = choose|i: int| 0 <= i < table.len() && table[i].type_id == type_id
            && forall|j: int| 0 <= j < i ==> table[j].type_id != type_id;
        assert forall|i: int| 0 <= i < table.len() && table[i].type_id == type_id
            && (forall|j: int| 0 <= j < i ==> table[j].type_id != type_id)
            implies first_index_of_type(table, type_id) == Some(i) by {
            if i < k {
                assert(table[i].type_id != type_id);
            } else if k < i {
                assert(table[k].type_id != type_id);
            }
        }
    }
}

proof fn lemma_least_witness(table: Seq<TypeDescriptor>, type_id: u8, w: int)
    requires
        0 <= w < table.len(),
        table[w].type_id == type_id,
    ensures
        exists|i: int| 0 <= i < table.len() && table[i].type_id == type_id
            && forall|j: int| 0 <= j < i ==> table[j].type_id != type_id,
    decreases w,
{
    if exists|j: int| 0 <= j < w && table[j].type_id == type_id {
        let j = choose|j: int| 0 <= j < w && table[j].type_id == type_id;
        lemma_least_witness(table, type_id, j);
    } else {
        assert(forall|j: int| 0 <= j < w ==> table[j].type_id != type_id);
    }
}

/// The predicate "the descriptor's name is `name_text` trimmed and upper-cased".
pub open spec fn named(name_text: Seq<char>) -> spec_fn(TypeDescriptor) -> bool {
    |d: TypeDescriptor| upper_eq(trim_seq(name_text), d.name@)
}

/// The type identification of the first descriptor named `name_text`.
pub open spec fn spec_type_id_of_name(table: Seq<TypeDescriptor>, name_text: Seq<char>) -> Option<u8> {
    match crate::seqs::first_match(table, named(name_text)) {
        Some(i) => Some(table[i].type_id),
        None => None,
    }
}

/// The type identification whose name equals `name_text` once trimmed and upper-cased.
pub fn iec104_type_id(table: &Vec<TypeDescriptor>, name_text: &str) -> (r: Option<u8>)
    ensures
        r == spec_type_id_of_name(table@, name_text@),
{
    let ghost p = named(name_text@);
    let mut i: usize = 0;
    while i < table.len()
        invariant
            i <= table@.len(),
            p == named(name_text@),
            forall|j: int| 0 <= j < i ==> !p(#[trigger] table@[j]),
        decreases table@.len() - i,
    {
        let hit = trimmed_upper_equals(name_text, table[i].name.as_str());
        assert(hit == p(table@[i as int]));
        if hit {
            proof { crate::seqs::lemma_first_match(table@, p, i as int); }
            return Some(table[i].type_id);
        }
        i = i + 1;
    }
    proof { crate::seqs::lemma_first_match(table@, p, i as int); }
    None
}

/// The name of `type_id` in the table, or `UNKNOWN`.
pub open spec fn spec_type_name(table: Seq<TypeDescriptor>, type_id: u8) -> Seq<char> {
    match first_index_of_type(table, type_id) {
        Some(i) => table[i].name@,
        None => "UNKNOWN"@,
    }
}

/// The name of `type_id` in the table, or `UNKNOWN` when the table does not list it.
pub fn iec104_type_name(table: &Vec<TypeDescriptor>, type_id: u8) -> (r: String)
    ensures
        r@ == spec_type_name(table@, type_id),
{
    match lookup_capability(table, type_id) {
        Some(c) => c.name,
        None => String::from_str("UNKNOWN"),
    }
}

/// The Chinese point-name prefix the simulator gives points of `type_id`.
pub open spec fn spec_name_prefix(t: u8) -> Seq<char> {
    if t == 1 || t == 2 || t == 30 { "单点"@ }
    else if t == 3 || t == 4 || t == 31 { "双点"@ }
    else if t == 5 || t == 6 || t == 32 { "步位"@ }
    else if t == 7 || t == 8 || t == 33 { "位串"@ }
    else if t == 9 || t == 10 || t == 21 || t == 34 { "归一化测量"@ }
    else if t == 11 || t == 12 || t == 35 { "标度化测量"@ }
    else if t == 13 || t == 14 || t == 36 { "短浮点测量"@ }
    else if t == 15 || t == 16 || t == 37 { "累计量"@ }
    else if t == 17 || t == 38 { "保护事件"@ }
    else if t == 18 || t == 39 { "保护启动"@ }
    else if t == 19 || t == 40 { "保护输出"@ }
    else if t == 20 { "成组单点"@ }
    else if t == 45 || t == 58 { "单命令"@ }
    else if t == 46 || t == 59 { "双命令"@ }
    else if t == 47 || t == 60 { "升降命令"@ }
    else if t == 48 || t == 61 { "归一化设点"@ }
    else if t == 49 || t == 62 { "标度化设点"@ }
    else if t == 50 || t == 63 { "短浮点设点"@ }
    else if t == 51 || t == 64 { "位串命令"@ }
    else if t == 110 { "归一化参数"@ }
    else if t == 111 { "标度化参数"@ }
    else if t == 112 { "短浮点参数"@ }
    else if t == 113 { "参数激活"@ }
    else { "数据点"@ }
}

/// The point-name prefix of `type_id`.
pub fn iec104_default_point_name_prefix(type_id: u8) -> (r: &'static str)
    ensures
        r@ == spec_name_prefix(type_id),
{
    let t = type_id;
    if t == 1 || t == 2 || t == 30 { "单点" }
    else if t == 3 || t == 4 || t == 31 { "双点" }
    else if t == 5 || t == 6 || t == 32 { "步位" }
    else if t == 7 || t == 8 || t == 33 { "位串" }
    else if t == 9 || t == 10 || t == 21 || t == 34 { "归一化测量" }
    else if t == 11 || t == 12 || t == 35 { "标度化测量" }
    else if t == 13 || t == 14 || t == 36 { "短浮点测量" }
    else if t == 15 || t == 16 || t == 37 { "累计量" }
    else if t == 17 || t == 38 { "保护事件" }
    else if t == 18 || t == 39 { "保护启动" }
    else if t == 19 || t == 40 { "保护输出" }
    else if t == 20 { "成组单点" }
    else if t == 45 || t == 58 { "单命令" }
    else if t == 46 || t == 59 { "双命令" }
    else if t == 47 || t == 60 { "升降命令" }
    else if t == 48 || t == 61 { "归一化设点" }
    else if t == 49 || t == 62 { "标度化设点" }
    else if t == 50 || t == 63 { "短浮点设点" }
    else if t == 51 || t == 64 { "位串命令" }
    else if t == 110 { "归一化参数" }
    else if t == 111 { "标度化参数" }
    else if t == 112 { "短浮点参数" }
    else if t == 113 { "参数激活" }
    else { "数据点" }
}

/// The default name of a point: its type prefix, an underscore and its address.
pub fn iec104_default_point_name(type_id: u8, address: u32) -> (r: String)
    ensures
        r@ == spec_name_prefix(type_id) + "_"@ + decimal(address as nat),
{
    let head = join2(iec104_default_point_name_prefix(type_id), "_");
    text_then_number(head.as_str(), address as u64)
}

/// A listed type's capability is point-configurable and master-received exactly
/// for measured and control point types.
pub proof fn lemma_lookup_read_capable(table: Seq<TypeDescriptor>, type_id: u8, c: Iec104Capability)
    requires
        first_index_of_type(table, type_id) is Some,
        capability_matches(c, table[first_index_of_type(table, type_id)->0]),
    ensures
        (c.point_configurable && c.master_receive) == (measurement_supported(type_id) || control_type(type_id)),
{
    let w = choose|i: int| 0 <= i < table.len() && table[i].type_id == type_id;
    lemma_least_witness(table, type_id, w);
    let i = first_index_of_type(table, type_id)->0;
    assert(table[i].type_id == type_id);
    assert(c.point_configurable == (measurement_supported(type_id) || control_type(type_id)));
    assert(c.master_receive == spec_master_receive(type_id));
}

/// How the point store records a point's value.
#[derive(Clone, Copy, Debug, PartialEq, Eq, Structural)]
pub enum DbDataType {
    SinglePoint,
    DoublePoint,
    StepPosition,
    Bitstring32,
    Normalized,
    Scaled,
    Float,
    IntegratedTotal,
}

/// The stored data type of a value model; none for a model without a stored value.
pub open spec fn spec_db_data_type(v: ValueModel) -> Option<DbDataType> {
    match v {
        ValueModel::Boolean => Some(DbDataType::SinglePoint),
        ValueModel::DoublePoint => Some(DbDataType::DoublePoint),
        ValueModel::StepPosition => Some(DbDataType::StepPosition),
        ValueModel::Bitstring32 => Some(DbDataType::Bitstring32),
        ValueModel::Normalized => Some(DbDataType::Normalized),
        ValueModel::ScaledI16 => Some(DbDataType::Scaled),
        ValueModel::Float32 => Some(DbDataType::Float),
        ValueModel::Counter => Some(DbDataType::IntegratedTotal),
        ValueModel::Absent | ValueModel::Structured => None,
    }
}

/// The stored data type of a point of type `type_id`, which must be listed
/// and carry a stored value.
pub fn infer_db_data_type(table: &Vec<TypeDescriptor>, type_id: u8) -> (r: DbDataType)
    requires
        first_index_of_type(table@, type_id) matches Some(i) && spec_db_data_type(table@[i].value_kind) is Some,
    ensures
        Some(r) == spec_db_data_type(table@[first_index_of_type(table@, type_id)->0].value_kind),
{
    let capability = lookup_capability(table, type_id);
    let value_model = match capability {
        Some(c) => c.value_model,
        None => { return DbDataType::SinglePoint; },
    };
    match value_model {
        ValueModel::Boolean => DbDataType::SinglePoint,
        ValueModel::DoublePoint => DbDataType::DoublePoint,
        ValueModel::StepPosition => DbDataType::StepPosition,
        ValueModel::Bitstring32 => DbDataType::Bitstring32,
        ValueModel::Normalized => DbDataType::Normalized,
        ValueModel::ScaledI16 => DbDataType::Scaled,
        ValueModel::Float32 => DbDataType::Float,
        ValueModel::Counter => DbDataType::IntegratedTotal,
        ValueModel::Absent | ValueModel::Structured => DbDataType::SinglePoint,
    }
}

/// The built-in point blocks of a master link slave: type, first address and count.
pub open spec fn built_in_block(i: int) -> (u8, u32, u32) {
    if i == 0 { (1, 0x0001, 100) }
    else if i == 1 { (3, 0x1001, 100) }
    else if i == 2 { (5, 0x2001, 20) }
    else if i == 3 { (7, 0x3001, 20) }
    else if i == 4 { (13, 0x4001, 100) }
    else if i == 5 { (15, 0x6401, 20) }
    else if i == 6 { (45, 0x6001, 100) }
    else if i == 7 { (46, 0x6081, 100) }
    else if i == 8 { (47, 0x6101, 20) }
    else if i == 9 { (50, 0x6201, 100) }
    else { (51, 0x6281, 100) }
}

/// How many points the blocks before block `i` hold.
pub open spec fn built_in_offset(i: int) -> int
    decreases i,
{
    if i <= 0 { 0 } else { built_in_offset(i - 1) + built_in_block(i - 1).2 }
}

/// The built-in point at position `k` of block `i`.
pub open spec fn built_in_point_ok(table: Seq<TypeDescriptor>, d: PointDef, i: int, k: int) -> bool {
    let (t, start, _) = built_in_block(i);
    &&& d.address == start + k
    &&& d.name@ == spec_name_prefix(t) + "_"@ + decimal((start + k) as nat)
    &&& d.type_id == t
    &&& d.data_type@ == spec_type_name(table, t)
    &&& d.description is None
    &&& d.control_ioa is None
    &&& d.gi_group is None
    &&& d.counter_group is None
    &&& (if t == 51 { d.default_value matches Some(v) && v@ == "0"@ } else { d.default_value is None })
    &&& d.is_enabled
    &&& d.source == PointSource::BuiltIn
}

fn built_in_block_exec(i: usize) -> (r: (u8, u32, u32))
    requires
        i < 11,
    ensures
        r == built_in_block(i as int),
{
    if i == 0 { (1, 0x0001, 100) }
    else if i == 1 { (3, 0x1001, 100) }
    else if i == 2 { (5, 0x2001, 20) }
    else if i == 3 { (7, 0x3001, 20) }
    else if i == 4 { (13, 0x4001, 100) }
    else if i == 5 { (15, 0x6401, 20) }
    else if i == 6 { (45, 0x6001, 100) }
    else if i == 7 { (46, 0x6081, 100) }
    else if i == 8 { (47, 0x6101, 20) }
    else if i == 9 { (50, 0x6201, 100) }
    else { (51, 0x6281, 100) }
}

/// The built-in point table of a master link slave: the blocks in order, each
/// address with its type's default name and type name, enabled; the bit
/// string commands default to zero.
pub fn build_master_built_in_point_defs(table: &Vec<TypeDescriptor>) -> (r: Vec<PointDef>)
    ensures
        r@.len() == built_in_offset(11),
        forall|i: int, k: int| 0 <= i < 11 && 0 <= k < built_in_block(i).2 ==>
            #[trigger] built_in_point_ok(table@, r@[built_in_offset(i) + k], i, k),
{
    let mut defs: Vec<PointDef> = Vec::new();
    let mut i: usize = 0;
    while i < 11
        invariant
            i <= 11,
            defs@.len() == built_in_offset(i as int),
            built_in_offset(i as int) <= 780,
            forall|bi: int, k: int| 0 <= bi < i && 0 <= k < built_in_block(bi).2 ==>
                #[trigger] built_in_point_ok(table@, defs@[built_in_offset(bi) + k], bi, k),
        decreases 11 - i,
    {
        let (type_id, start, count) = built_in_block_exec(i);
        proof { lemma_built_in_blocks(i as int); }
        let mut offset: u32 = 0;
        let ghost base = defs@.len();
        while offset < count
            invariant
                i < 11,
                (type_id, start, count) == built_in_block(i as int),
                offset <= count,
                count <= 100,
                start <= 0x6401,
                base == built_in_offset(i as int),
                defs@.len() == base + offset,
                forall|bi: int, k: int| 0 <= bi < i && 0 <= k < built_in_block(bi).2 ==>
                    #[trigger] built_in_point_ok(table@, defs@[built_in_offset(bi) + k], bi, k),
                forall|k: int| 0 <= k < offset ==> #[trigger] built_in_point_ok(table@, defs@[base + k], i as int, k),
            decreases count - offset,
        {
            let address = start + offset;
            let default_value = if type_id == 51 { Some(String::from_str("0")) } else { None };
            proof { reveal_strlit("0"); }
            let ghost before = defs@;
            defs.push(PointDef {
                address,
                name: iec104_default_point_name(type_id, address),
                type_id,
                data_type: iec104_type_name(table, type_id),
                description: None,
                control_ioa: None,
                gi_group: None,
                counter_group: None,
                default_value,
                is_enabled: true,
                source: PointSource::BuiltIn,
            });
            proof {
                assert forall|bi: int, k: int| 0 <= bi < i && 0 <= k < built_in_block(bi).2 implies
                    #[trigger] built_in_point_ok(table@, defs@[built_in_offset(bi) + k], bi, k) by {
                    lemma_built_in_blocks(bi);
                    lemma_built_in_offset_mono(bi + 1, i as int);
                    assert(0 <= built_in_offset(bi)) by { lemma_built_in_offset_mono(0, bi); }
                    assert(built_in_offset(bi) + k < before.len());
                    assert(defs@[built_in_offset(bi) + k] == before[built_in_offset(bi) + k]);
                }
                assert forall|k: int| 0 <= k < offset + 1 implies #[trigger] built_in_point_ok(table@, defs@[base + k], i as int, k) by {
                    if k < offset {
                        assert(defs@[base + k] == before[base + k]);
                    }
                }
            }
            offset = offset + 1;
        }
        i = i + 1;
    }
    defs
}

proof fn lemma_built_in_blocks(i: int)
    requires
        0 <= i < 11,
    ensures
        built_in_block(i).1 <= 0x6401,
        built_in_block(i).2 <= 100,
        built_in_offset(i + 1) == built_in_offset(i) + built_in_block(i).2,
        built_in_offset(i + 1) <= 780,
{
    reveal_with_fuel(built_in_offset, 12);
}

proof fn lemma_built_in_offset_mono(a: int, b: int)
    requires
        0 <= a <= b,
    ensures
        built_in_offset(a) <= built_in_offset(b),
    decreases b - a,
{
    if a < b {
        lemma_built_in_offset_mono(a, b - 1);
    }
}

} // verus!
