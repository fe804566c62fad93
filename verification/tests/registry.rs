use iec104_simulator_backend::registry::build_master_built_in_point_defs;
use iec104_simulator_backend::registry::{infer_db_data_type, DbDataType};
use iec104_simulator_backend::registry::{
    all_capabilities, capability_from_descriptor, iec104_default_point_name, iec104_default_point_name_prefix,
    iec104_type_id, iec104_type_name, lifecycle_for_type, lookup_capability, point_role_for_type, same_type_family,
    simulation_capability, CotLifecycle, DefaultWaveform, PointRole, QualityModel, SimulationInputKind,
    TimestampModel, TypeDescriptor, TypeFamily, ValueModel, WaveformSet,
};
use iec104_simulator_backend::text::{join2, join3, text_then_number, text_with_number};

fn d(type_id: u8, name: &str, family: TypeFamily, value: ValueModel) -> TypeDescriptor {
    TypeDescriptor {
        type_id,
        name: name.to_string(),
        ioa_len: 3,
        family,
        value_kind: value,
        quality_kind: QualityModel::Qds,
        timestamp_kind: TimestampModel::Absent,
    }
}

fn table() -> Vec<TypeDescriptor> {
    vec![
        d(1, "M_SP_NA_1", TypeFamily::SinglePoint, ValueModel::Boolean),
        d(30, "M_SP_TB_1", TypeFamily::SinglePoint, ValueModel::Boolean),
        d(13, "M_ME_NC_1", TypeFamily::ShortFloat, ValueModel::Float32),
        d(45, "C_SC_NA_1", TypeFamily::Control, ValueModel::Boolean),
        d(100, "C_IC_NA_1", TypeFamily::SystemCommand, ValueModel::Absent),
        d(126, "F_DR_TA_1", TypeFamily::FileTransfer, ValueModel::Structured),
        d(70, "M_EI_NA_1", TypeFamily::Initialization, ValueModel::Absent),
    ]
}

#[test]
fn roles_and_lifecycles_follow_the_type() {
    assert_eq!(point_role_for_type(1), PointRole::Monitor);
    assert_eq!(point_role_for_type(64), PointRole::Control);
    assert_eq!(point_role_for_type(100), PointRole::NonPoint);
    assert_eq!(lifecycle_for_type(45, false), CotLifecycle::SelectExecute);
    assert_eq!(lifecycle_for_type(51, false), CotLifecycle::ActivationTermination);
    assert_eq!(lifecycle_for_type(1, true), CotLifecycle::ParserOnly);
}

#[test]
fn capabilities_are_derived_from_descriptors() {
    let sp = capability_from_descriptor(&table()[0]);
    assert!(sp.master_receive && sp.slave_upload && sp.point_configurable);
    assert!(!sp.master_send && !sp.slave_receive && !sp.parser_only);
    let sim = sp.simulation.unwrap();
    assert_eq!(sim.waveforms, WaveformSet::Discrete);
    assert_eq!(sim.default_waveform, DefaultWaveform::Step);
    assert_eq!(sim.input_kind, SimulationInputKind::Select);
    let sc = capability_from_descriptor(&table()[3]);
    assert!(sc.master_send && sc.slave_receive && sc.point_configurable);
    assert!(sc.simulation.is_none());
    let ei = capability_from_descriptor(&table()[6]);
    assert!(ei.parser_only);
    assert_eq!(ei.cot_lifecycle, CotLifecycle::ParserOnly);
    assert_eq!(all_capabilities(&table()).len(), 7);
    assert!(simulation_capability(ValueModel::Absent).is_none());
    assert_eq!(simulation_capability(ValueModel::Float32).unwrap().input_kind, SimulationInputKind::Float);
}

#[test]
fn types_are_looked_up_by_id_and_name() {
    let t = table();
    assert_eq!(lookup_capability(&t, 13).map(|c| c.name), Some("M_ME_NC_1".to_string()));
    assert!(lookup_capability(&t, 99).is_none());
    assert_eq!(iec104_type_name(&t, 30), "M_SP_TB_1");
    assert_eq!(iec104_type_name(&t, 99), "UNKNOWN");
    assert_eq!(iec104_type_id(&t, "C_SC_NA_1"), Some(45));
    assert_eq!(iec104_type_id(&t, "nothing"), None);
    assert!(same_type_family(&t, 1, 30));
    assert!(!same_type_family(&t, 1, 13));
    assert!(!same_type_family(&t, 99, 99));
}

#[test]
fn default_point_names() {
    assert_eq!(iec104_default_point_name_prefix(30), "单点");
    assert_eq!(iec104_default_point_name_prefix(63), "短浮点设点");
    assert_eq!(iec104_default_point_name_prefix(200), "数据点");
    assert_eq!(iec104_default_point_name(13, 16385), "短浮点测量_16385");
}

#[test]
fn numbers_are_rendered_as_std_does() {
    assert_eq!(text_then_number("n=", 0), "n=0");
    assert_eq!(text_then_number("", 18_446_744_073_709_551_615), "18446744073709551615");
    assert_eq!(join2("a", "b"), "ab");
    assert_eq!(join3("a", "b", "c"), "abc");
    assert_eq!(text_with_number("n=", 7, "!"), "n=7!");
}

#[test]
fn stored_data_types_follow_the_value_model() {
    let t = table();
    assert_eq!(infer_db_data_type(&t, 1), DbDataType::SinglePoint);
    assert_eq!(infer_db_data_type(&t, 13), DbDataType::Float);
    assert_eq!(infer_db_data_type(&t, 45), DbDataType::SinglePoint);
}

#[test]
fn built_in_point_table_covers_every_block() {
    let defs = build_master_built_in_point_defs(&table());
    assert_eq!(defs.len(), 780);
    assert_eq!(defs[0].address, 1);
    assert_eq!(defs[0].name, "单点_1");
    assert_eq!(defs[0].data_type, "M_SP_NA_1");
    assert_eq!(defs[100].address, 0x1001);
    assert_eq!(defs[100].data_type, "UNKNOWN");
    let last = defs.last().unwrap();
    assert_eq!((last.type_id, last.address), (51, 0x6281 + 99));
    assert_eq!(last.default_value.as_deref(), Some("0"));
    assert!(defs[0].default_value.is_none());
    assert!(defs.iter().all(|d| d.is_enabled));
}
