use iec104_simulator_backend::admission::{resolve_point_scope, scope_eq, MasterPointAdmission, MasterPointScope};
use iec104_simulator_backend::types::{PointDef, PointSource};

pub fn point(address: u32, enabled: bool) -> PointDef {
    PointDef {
        address,
        name: format!("P{address}"),
        type_id: 1,
        data_type: "M_SP_NA_1".to_string(),
        description: None,
        control_ioa: None,
        gi_group: None,
        counter_group: None,
        default_value: None,
        is_enabled: enabled,
        source: PointSource::Manual,
    }
}

#[test]
fn scopes_prefer_the_configured_slave() {
    assert!(matches!(resolve_point_scope("conn_1", Some(4)), MasterPointScope::ConfiguredSlave(4)));
    match resolve_point_scope("conn_1", None) {
        MasterPointScope::LiveConnection(id) => assert_eq!(id, "conn_1"),
        _ => panic!("expected a connection scope"),
    }
    assert!(scope_eq(&resolve_point_scope("a", Some(1)), &resolve_point_scope("b", Some(1))));
    assert!(!scope_eq(&resolve_point_scope("a", None), &resolve_point_scope("b", None)));
}

#[test]
fn replacing_a_scope_decides_admission() {
    let scope = resolve_point_scope("conn_1", Some(9));
    let mut admission = MasterPointAdmission::new();
    assert!(!admission.is_disabled(&scope, 1, 100));
    let previous = admission.replace_scope(&scope, 1, &vec![point(100, true), point(101, false)], true);
    assert!(previous.is_empty());
    assert!(!admission.is_disabled(&scope, 1, 100));
    assert!(admission.is_disabled(&scope, 1, 101));
    assert!(!admission.is_disabled(&scope, 2, 101));
    let other = resolve_point_scope("conn_1", Some(10));
    assert!(!admission.is_disabled(&other, 1, 101));

    let previous = admission.replace_scope(&scope, 1, &vec![point(100, true)], false);
    assert_eq!(previous.len(), 2);
    assert!(admission.is_disabled(&scope, 1, 100));
    assert!(admission.is_disabled(&scope, 1, 555));

    let cleared = admission.clear_scope(&scope);
    assert_eq!(cleared.len(), 1);
    assert!(!admission.is_disabled(&scope, 1, 100));
    assert!(!admission.is_disabled(&scope, 1, 101));
}

#[test]
fn wildcard_address_disables_every_common_address() {
    let scope = resolve_point_scope("conn_2", None);
    let mut admission = MasterPointAdmission::new();
    admission.replace_scope(&scope, 0, &vec![point(7, false)], true);
    assert!(admission.is_disabled(&scope, 1, 7));
    assert!(admission.is_disabled(&scope, 300, 7));
    assert!(!admission.is_disabled(&scope, 1, 8));
}

#[test]
fn replacing_returns_the_table_of_the_last_call_on_the_scope() {
    let scope = resolve_point_scope("conn_3", Some(1));
    let other = resolve_point_scope("conn_3", Some(2));
    let mut admission = MasterPointAdmission::new();
    admission.replace_scope(&scope, 5, &vec![point(1, true), point(2, true)], true);
    admission.replace_scope(&other, 6, &vec![point(9, false)], true);
    admission.clear_scope(&other);
    let previous = admission.replace_scope(&scope, 5, &vec![point(3, true)], true);
    let mut addresses: Vec<u32> = previous.iter().map(|k| k.ioa).collect();
    addresses.sort();
    assert_eq!(addresses, vec![1, 2]);
    assert!(previous.iter().all(|k| k.common_address == 5));
    let previous = admission.replace_scope(&scope, 5, &vec![], true);
    assert_eq!(previous.iter().map(|k| k.ioa).collect::<Vec<_>>(), vec![3]);
}
