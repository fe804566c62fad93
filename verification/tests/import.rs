use iec104_simulator_backend::alias::{alias_extend, alias_get, alias_set, normalize_asdu_alias_map};
use iec104_simulator_backend::import::{
    append_only_preview_issues, build_point_table_import_apply_result, build_point_table_import_preview,
    build_target_capability_warnings, merge_append_only, prepare_point_table_apply, sanitize_payload_for_target,
    sort_point_defs_by_address, validate_source_common_addresses, DecodedPointTableImport, PointTableImportFormat,
    PointTableImportIssue, PointTableImportMode, PointTableImportNormalizedPayload,
    PointTableImportSourceCommonAddress, PointTableImportTarget,
};
use iec104_simulator_backend::registry::{QualityModel, TimestampModel, TypeDescriptor, TypeFamily, ValueModel};
use iec104_simulator_backend::types::{PointDef, PointSource};

fn point(address: u32, name: &str, control_ioa: Option<u32>) -> PointDef {
    PointDef {
        address,
        name: name.to_string(),
        type_id: 1,
        data_type: "M_SP_NA_1".to_string(),
        description: None,
        control_ioa,
        gi_group: None,
        counter_group: None,
        default_value: None,
        is_enabled: true,
        source: PointSource::Imported,
    }
}

fn pair(k: &str, v: &str) -> (String, String) {
    (k.to_string(), v.to_string())
}

fn payload(defs: Vec<PointDef>, aliases: Vec<(String, String)>, cas: Vec<u16>) -> PointTableImportNormalizedPayload {
    PointTableImportNormalizedPayload {
        point_defs: defs,
        asdu_aliases: aliases,
        source_common_addresses: cas
            .into_iter()
            .map(|c| PointTableImportSourceCommonAddress { common_address: c, location: format!("row {c}") })
            .collect(),
    }
}

fn table() -> Vec<TypeDescriptor> {
    vec![
        TypeDescriptor {
            type_id: 1,
            name: "M_SP_NA_1".to_string(),
            ioa_len: 3,
            family: TypeFamily::SinglePoint,
            value_kind: ValueModel::Boolean,
            quality_kind: QualityModel::Siq,
            timestamp_kind: TimestampModel::Absent,
        },
        TypeDescriptor {
            type_id: 13,
            name: "M_ME_NC_1".to_string(),
            ioa_len: 3,
            family: TypeFamily::ShortFloat,
            value_kind: ValueModel::Float32,
            quality_kind: QualityModel::Qds,
            timestamp_kind: TimestampModel::Absent,
        },
    ]
}

const MASTER: PointTableImportTarget = PointTableImportTarget::MasterLinkSlave { slave_id: 1 };
const SLAVE: PointTableImportTarget = PointTableImportTarget::SlaveStationSlave { slave_id: 1 };

#[test]
fn alias_maps_keep_keys_unique() {
    let mut m = Vec::new();
    alias_set(&mut m, "A".to_string(), "1".to_string());
    alias_set(&mut m, "B".to_string(), "2".to_string());
    alias_set(&mut m, "A".to_string(), "3".to_string());
    assert_eq!(m.len(), 2);
    assert_eq!(alias_get(&m, "A").map(|s| s.as_str()), Some("3"));
    assert_eq!(alias_get(&m, "C"), None);
    alias_extend(&mut m, vec![pair("C", "4"), pair("B", "5")]);
    assert_eq!(alias_get(&m, "B").map(|s| s.as_str()), Some("5"));
    assert_eq!(alias_get(&m, "C").map(|s| s.as_str()), Some("4"));
    assert_eq!(m.len(), 3);
}

#[test]
fn aliases_are_normalized_to_type_names() {
    let raw = vec![pair(" M_SP_NA_1 ", " switch "), pair("m_me_nc_1", "float"), pair("M_XX_NA_1", "x"), pair("M_ME_NC_1", "  ")];
    let m = normalize_asdu_alias_map(&table(), raw);
    assert_eq!(alias_get(&m, "M_SP_NA_1").map(|s| s.as_str()), Some("switch"));
    assert_eq!(m.len(), 1 + usize::from(alias_get(&m, "M_ME_NC_1").is_some()));
    let later = normalize_asdu_alias_map(&table(), vec![pair("M_SP_NA_1", "a"), pair("M_SP_NA_1", "b")]);
    assert_eq!(later.len(), 1);
    assert_eq!(alias_get(&later, "M_SP_NA_1").map(|s| s.as_str()), Some("b"));
}

#[test]
fn master_targets_drop_control_mappings() {
    let p = payload(vec![point(1, "a", Some(100)), point(2, "b", None)], vec![], vec![]);
    let warnings = build_target_capability_warnings(&MASTER, &p);
    assert_eq!(warnings.len(), 1);
    assert_eq!(warnings[0].code, "TARGET_UNSUPPORTED_CONTROL_MAPPING");
    assert_eq!(warnings[0].message, "当前导入目标不支持保存 control_ioa 映射，提交时将忽略 1 项");
    assert!(build_target_capability_warnings(&SLAVE, &p).is_empty());
    let sanitized = sanitize_payload_for_target(&MASTER, p.clone(), &table());
    assert!(sanitized.point_defs.iter().all(|d| d.control_ioa.is_none()));
    let kept = sanitize_payload_for_target(&SLAVE, p, &table());
    assert_eq!(kept.point_defs[0].control_ioa, Some(100));
}

#[test]
fn common_addresses_must_match_the_target() {
    let p = payload(vec![point(1, "a", None)], vec![], vec![1, 2, 1]);
    assert!(validate_source_common_addresses(&p, &Ok(Some(1))).len() == 1);
    let issues = validate_source_common_addresses(&p, &Ok(Some(1)));
    assert_eq!(issues[0].code, "COMMON_ADDRESS_MISMATCH");
    assert_eq!(issues[0].message, "文件 common_address=2 与导入目标 CA=1 不一致");
    assert_eq!(issues[0].location.as_deref(), Some("row 2"));
    let unset = validate_source_common_addresses(&p, &Ok(None));
    assert_eq!(unset.len(), 3);
    assert_eq!(unset[0].message, "文件 common_address=1 与导入目标 CA=未指定 不一致");
    let failed = validate_source_common_addresses(&p, &Err(("SLAVE_NOT_FOUND".to_string(), "从站不存在".to_string())));
    assert_eq!(failed.len(), 1);
    assert_eq!(failed[0].code, "SLAVE_NOT_FOUND");
    assert!(validate_source_common_addresses(&payload(vec![], vec![], vec![]), &Ok(Some(9))).is_empty());
}

#[test]
fn sorting_by_address_is_stable() {
    let sorted = sort_point_defs_by_address(vec![point(5, "x", None), point(1, "y", None), point(5, "z", None), point(3, "w", None)]);
    let names: Vec<&str> = sorted.iter().map(|d| d.name.as_str()).collect();
    assert_eq!(names, vec!["y", "w", "x", "z"]);
}

#[test]
fn append_previews_list_every_conflict() {
    let incoming = payload(vec![point(1, "a", None), point(2, "b", None), point(3, "c", None)], vec![pair("M_SP_NA_1", "new"), pair("M_ME_NC_1", "same")], vec![]);
    let existing_aliases = vec![pair("M_SP_NA_1", "old"), pair("M_ME_NC_1", "same")];
    let issues = append_only_preview_issues(&incoming, &vec![3, 1], &existing_aliases);
    let codes: Vec<&str> = issues.iter().map(|i| i.code.as_str()).collect();
    assert_eq!(codes, vec!["CONFLICT_IOA_EXISTING", "CONFLICT_IOA_EXISTING", "CONFLICT_ASDU_ALIAS"]);
    assert_eq!(issues[0].message, "IOA=1 已存在，严格追加模式不允许覆盖");
    assert_eq!(issues[1].location.as_deref(), Some("IOA=3"));
    assert_eq!(issues[2].message, "ASDU 别名 M_SP_NA_1 已存在且值不同");
}

#[test]
fn append_merges_refuse_conflicts_first() {
    let existing = vec![point(2, "e2", None), point(4, "e4", None)];
    let clash = payload(vec![point(1, "a", None), point(4, "b", None)], vec![], vec![]);
    let (code, message) = merge_append_only(existing.clone(), Ok(vec![]), clash).unwrap_err();
    assert_eq!(code, "CONFLICT_IOA_EXISTING");
    assert_eq!(message, "IOA=4 已存在，严格追加导入已整体拒绝");
    let alias = payload(vec![point(1, "a", None)], vec![pair("M_SP_NA_1", "x")], vec![]);
    let (code, message) = merge_append_only(existing.clone(), Ok(vec![pair("M_SP_NA_1", "y")]), alias.clone()).unwrap_err();
    assert_eq!(code, "CONFLICT_ASDU_ALIAS");
    assert_eq!(message, "ASDU 别名 M_SP_NA_1 已存在且值不同，严格追加导入已整体拒绝");
    let read_failed = merge_append_only(existing.clone(), Err(("DB_TRANSACTION_FAILED".to_string(), "x".to_string())), alias.clone());
    assert_eq!(read_failed.unwrap_err().0, "DB_TRANSACTION_FAILED");
    let merged = merge_append_only(existing, Ok(vec![pair("M_ME_NC_1", "f")]), payload(vec![point(3, "c", None), point(1, "a", None)], vec![pair("M_SP_NA_1", "x")], vec![])).unwrap();
    let addresses: Vec<u32> = merged.point_defs.iter().map(|d| d.address).collect();
    assert_eq!(addresses, vec![1, 2, 3, 4]);
    assert_eq!(alias_get(&merged.asdu_aliases, "M_SP_NA_1").map(|s| s.as_str()), Some("x"));
    assert_eq!(alias_get(&merged.asdu_aliases, "M_ME_NC_1").map(|s| s.as_str()), Some("f"));
}

#[test]
fn applies_check_emptiness_addresses_and_mode() {
    let ok_ca: Result<Option<u16>, (String, String)> = Ok(Some(1));
    let (code, message) = prepare_point_table_apply(PointTableImportMode::ReplaceAll, payload(vec![], vec![], vec![]), &ok_ca, Ok(vec![]), Ok(vec![])).unwrap_err();
    assert_eq!(code, "EMPTY_POINT_TABLE");
    assert_eq!(message, "未解析到可导入的点表定义");
    let (code, message) = prepare_point_table_apply(PointTableImportMode::ReplaceAll, payload(vec![point(1, "a", None)], vec![], vec![7]), &ok_ca, Ok(vec![]), Ok(vec![])).unwrap_err();
    assert_eq!(code, "COMMON_ADDRESS_MISMATCH");
    assert_eq!(message, "文件 common_address=7 与导入目标 CA=1 不一致");
    let replaced = prepare_point_table_apply(PointTableImportMode::ReplaceAll, payload(vec![point(9, "a", None)], vec![], vec![1]), &ok_ca, Err(("X".to_string(), "y".to_string())), Ok(vec![])).unwrap();
    assert_eq!(replaced.point_defs.len(), 1);
    let appended = prepare_point_table_apply(PointTableImportMode::AppendOnly, payload(vec![point(9, "a", None)], vec![], vec![]), &ok_ca, Ok(vec![point(1, "e", None)]), Ok(vec![])).unwrap();
    assert_eq!(appended.point_defs.iter().map(|d| d.address).collect::<Vec<_>>(), vec![1, 9]);
    let failed = prepare_point_table_apply(PointTableImportMode::AppendOnly, payload(vec![point(9, "a", None)], vec![], vec![]), &ok_ca, Err(("DB_TRANSACTION_FAILED".to_string(), "读取从站点表失败: x".to_string())), Ok(vec![]));
    assert_eq!(failed.unwrap_err().1, "读取从站点表失败: x");
}

fn decoded(p: PointTableImportNormalizedPayload) -> DecodedPointTableImport {
    DecodedPointTableImport {
        file_path: "/tmp/t.csv".to_string(),
        file_name: "t.csv".to_string(),
        file_size: 10,
        format: PointTableImportFormat::Csv,
        encoding: "utf-8".to_string(),
        total_points: 3,
        duplicate_address_count: 1,
        points_preview: p.point_defs.clone(),
        payload: p,
        errors: vec![PointTableImportIssue { code: "PARSE".to_string(), message: "row 3".to_string(), location: None }],
        warnings: vec![],
    }
}

#[test]
fn previews_collect_issues_and_counts() {
    let p = payload(vec![point(1, "a", Some(5)), point(2, "b", None)], vec![pair("M_SP_NA_1", "x")], vec![2]);
    let preview = build_point_table_import_preview(MASTER, PointTableImportMode::AppendOnly, decoded(p), Ok(4), &Ok(Some(1)), Ok(vec![2]), Ok(vec![])).unwrap();
    let codes: Vec<&str> = preview.errors.iter().map(|i| i.code.as_str()).collect();
    assert_eq!(codes, vec!["PARSE", "COMMON_ADDRESS_MISMATCH", "CONFLICT_IOA_EXISTING"]);
    assert_eq!(preview.warnings.len(), 1);
    assert!(!preview.can_apply);
    assert_eq!(preview.summary.total_points, 3);
    assert_eq!(preview.summary.normalized_points, 2);
    assert_eq!(preview.summary.control_mapping_count, 1);
    assert_eq!(preview.summary.asdu_alias_count, 1);
    assert_eq!(preview.summary.existing_points_count, 4);
    assert_eq!(preview.summary.error_count, 3);
    assert_eq!(preview.summary.warning_count, 1);
    assert_eq!(preview.asdu_aliases_preview, vec![pair("M_SP_NA_1", "x")]);

    let clean = payload(vec![point(1, "a", None)], vec![], vec![]);
    let mut d = decoded(clean);
    d.errors.clear();
    let ok = build_point_table_import_preview(SLAVE, PointTableImportMode::ReplaceAll, d, Ok(0), &Ok(None), Err(("X".to_string(), "unused".to_string())), Ok(vec![])).unwrap();
    assert!(ok.can_apply);
    let failed = build_point_table_import_preview(SLAVE, PointTableImportMode::ReplaceAll, decoded(payload(vec![], vec![], vec![])), Err(("SLAVE_NOT_FOUND".to_string(), "从站不存在".to_string())), &Ok(None), Ok(vec![]), Ok(vec![]));
    assert_eq!(failed.unwrap_err().0, "SLAVE_NOT_FOUND");
}

#[test]
fn apply_results_count_by_mode() {
    let append = build_point_table_import_apply_result(SLAVE, PointTableImportMode::AppendOnly, 3, 1, (10, 13, 2), true, Some(8));
    assert_eq!((append.imported_points, append.asdu_aliases_updated, append.existing_points), (3, 1, 10));
    assert_eq!(append.applied_point_cursor, Some(8));
    let replace = build_point_table_import_apply_result(MASTER, PointTableImportMode::ReplaceAll, 3, 1, (10, 13, 2), false, Some(8));
    assert_eq!((replace.imported_points, replace.asdu_aliases_updated), (13, 2));
    assert_eq!(replace.applied_point_cursor, None);
}
