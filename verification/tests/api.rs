use iec104_simulator_backend::api::{
    build_capture_export_meta, build_station_config, first_lowest_row_id, map_db_conflict_response,
    finish_slave_ioa_display_format_write, map_master_file_transfer_error, normalize_slave_ioa_display_format,
    normalize_ui_language, prepare_slave_ioa_display_format_value, read_slave_ioa_display_format,
    station_config_to_response, ApiError, ApiErrorCode, AppRole, CaptureFormat, CreateStationRequest,
    DbConflictMapping, FileTransferFailure, Iec104CommandResult, StationProtocol, StationType,
};
use iec104_simulator_backend::errors::Iec104ErrorCode;

#[test]
fn error_codes_round_trip_through_their_names() {
    for code in [
        ApiErrorCode::AppError,
        ApiErrorCode::ConflictIoaExisting,
        ApiErrorCode::DbTransactionFailed,
        ApiErrorCode::EmptyPointTable,
        ApiErrorCode::ValidationError,
        ApiErrorCode::UserSettingParseFailed,
    ] {
        assert_eq!(ApiErrorCode::from_code(code.code()), code);
    }
    assert_eq!(ApiErrorCode::EmptyPointTable.code(), "EMPTY_POINT_TABLE");
    assert_eq!(ApiErrorCode::from_code("NO_SUCH_CODE"), ApiErrorCode::InternalError);
}

#[test]
fn api_error_constructors() {
    let e = ApiError::new("SLAVE_NOT_FOUND", "从站不存在".to_string());
    assert_eq!(e.code, ApiErrorCode::SlaveNotFound);
    assert_eq!(e.message, "从站不存在");
    assert!(e.detail.is_none());
    assert_eq!(ApiError::app("x".to_string()).code, ApiErrorCode::AppError);
}

#[test]
fn command_results() {
    let ok = Iec104CommandResult::accepted("trace".to_string());
    assert!(ok.accepted);
    assert_eq!(ok.trace_id.as_deref(), Some("trace"));
    let no = Iec104CommandResult::rejected(Iec104ErrorCode::NotConnected, "down".to_string());
    assert!(!no.accepted);
    assert_eq!(no.error_code, Some(Iec104ErrorCode::NotConnected));
    assert_eq!(no.error_message.as_deref(), Some("down"));
    assert_eq!(AppRole::Master.as_str(), "master");
    assert_eq!(AppRole::Slave.as_str(), "slave");
}

#[test]
fn ui_language_and_display_format() {
    assert_eq!(normalize_ui_language(" en-US "), Some("en-US"));
    assert_eq!(normalize_ui_language("zh-CN"), Some("zh-CN"));
    assert_eq!(normalize_ui_language("fr-FR"), None);
    assert_eq!(normalize_slave_ioa_display_format(" HEX "), Some("hex"));
    assert_eq!(normalize_slave_ioa_display_format("Decimal"), Some("dec"));
    assert_eq!(normalize_slave_ioa_display_format("octal"), None);
}

#[test]
fn db_conflicts_name_the_first_matching_constraint() {
    let mappings = vec![
        DbConflictMapping { constraint: "stations.name", code: "STATION_NAME_CONFLICT", display_message: "站点名称已存在" },
        DbConflictMapping { constraint: "UNIQUE", code: "CONFLICT_IOA_DUPLICATE", display_message: "重复" },
    ];
    let e = map_db_conflict_response("UNIQUE constraint failed: stations.name".to_string(), "保存失败", &mappings);
    assert_eq!(e.code, ApiErrorCode::StationNameConflict);
    assert_eq!(e.message, "站点名称已存在");
    let f = map_db_conflict_response("disk full".to_string(), "保存失败", &mappings);
    assert_eq!(f.code, ApiErrorCode::DbTransactionFailed);
    assert_eq!(f.message, "保存失败: disk full");
}

#[test]
fn file_transfer_errors_are_classified() {
    let e = map_master_file_transfer_error(FileTransferFailure::NotConnected);
    assert_eq!(e.code, ApiErrorCode::NotConnected);
    assert_eq!(e.message, "TCP 未建立，无法进行文件传输");
    let busy = map_master_file_transfer_error(FileTransferFailure::Protocol("当前连接已有运行中的文件传输会话".to_string()));
    assert_eq!(busy.code, ApiErrorCode::FileTransferBusy);
    let proto = map_master_file_transfer_error(FileTransferFailure::Protocol("x".to_string()));
    assert_eq!(proto.code, ApiErrorCode::ProtocolState);
    let missing = map_master_file_transfer_error(FileTransferFailure::InvalidData("读取上传文件失败: a".to_string()));
    assert_eq!(missing.code, ApiErrorCode::UploadFileMissing);
    let large = map_master_file_transfer_error(FileTransferFailure::InvalidData("文件大小超过上限".to_string()));
    assert_eq!(large.code, ApiErrorCode::FileTooLarge);
    let invalid = map_master_file_transfer_error(FileTransferFailure::InvalidData("bad".to_string()));
    assert_eq!(invalid.code, ApiErrorCode::ValidationError);
    let other = map_master_file_transfer_error(FileTransferFailure::Other("boom".to_string()));
    assert_eq!(other.code, ApiErrorCode::InternalError);
    assert_eq!(other.message, "boom");
}

#[test]
fn capture_exports_are_named() {
    let meta = build_capture_export_meta("master", "7", " PCAPNG ", Some("conn_1"), "20240101-120000").unwrap();
    assert_eq!(meta.format, CaptureFormat::Pcapng);
    assert_eq!(meta.file_name, "iec104-master-7-conn_1-20240101-120000.pcapng");
    assert_eq!(meta.mime_type, "application/x-pcapng");
    let plain = build_capture_export_meta("slave", "3", "pcap", Some(""), "20240101-120000").unwrap();
    assert_eq!(plain.file_name, "iec104-slave-3-20240101-120000.pcap");
    assert_eq!(plain.mime_type, "application/vnd.tcpdump.pcap");
    assert_eq!(build_capture_export_meta("master", "1", "txt", None, "s").unwrap_err(), "不支持的格式（仅支持 pcap/pcapng）");
    assert_eq!(build_capture_export_meta("proxy", "1", "pcap", None, "s").unwrap_err(), "不支持的站点角色");
}

fn request(station_type: &str) -> CreateStationRequest {
    CreateStationRequest {
        name: "S1".to_string(),
        protocol: StationProtocol::Iec104,
        station_type: station_type.to_string(),
        host: "127.0.0.1".to_string(),
        port: 2404,
        common_address: 1,
        enabled: true,
        point_template: None,
    }
}

#[test]
fn station_configs_check_their_type_and_address() {
    let config = build_station_config(request(" Slave "), StationType::Slave, Ok(("127.0.0.1".to_string(), 2404))).unwrap();
    assert_eq!(config.name, "S1");
    assert_eq!(config.host, "127.0.0.1");
    assert_eq!(config.port, 2404);
    assert_eq!(config.station_type, StationType::Slave);
    assert_eq!(
        build_station_config(request("master"), StationType::Slave, Ok(("h".to_string(), 1))).unwrap_err(),
        "station_type 必须为 slave"
    );
    assert_eq!(
        build_station_config(request("master"), StationType::Master, Err("bad".to_string())).unwrap_err(),
        "无效的地址: bad"
    );
    let unsupported = CreateStationRequest { protocol: StationProtocol::Unsupported, ..request("slave") };
    assert_eq!(build_station_config(unsupported, StationType::Slave, Ok(("h".to_string(), 1))).unwrap_err(), "仅支持iec104");
    let response = station_config_to_response(&config);
    assert_eq!(response.station_type, "slave");
    assert_eq!(response.port, 2404);
    assert_eq!(response.protocol, StationProtocol::Iec104);
}

#[test]
fn lowest_row_id_comes_first() {
    assert_eq!(first_lowest_row_id(&vec![]), None);
    assert_eq!(first_lowest_row_id(&vec![Some(5), None, Some(2), Some(2)]), Some(2));
    assert_eq!(first_lowest_row_id(&vec![None, None]), Some(0));
}

#[test]
fn ioa_display_format_setting_is_read_and_written() {
    assert_eq!(read_slave_ioa_display_format(Ok(None)).unwrap(), "dec");
    assert_eq!(read_slave_ioa_display_format(Ok(Some("\"HEX\"".to_string()))).unwrap(), "hex");
    assert_eq!(read_slave_ioa_display_format(Ok(Some("\" decimal \"".to_string()))).unwrap(), "dec");
    let err = read_slave_ioa_display_format(Ok(Some("\"oct\"".to_string()))).unwrap_err();
    assert_eq!(err.code, ApiErrorCode::AppError);
    assert_eq!(err.message, "IOA 地址显示格式无效: oct");
    let err = read_slave_ioa_display_format(Ok(Some("hex".to_string()))).unwrap_err();
    assert!(err.message.starts_with("解析 IOA 地址显示格式失败: "));
    let err = read_slave_ioa_display_format(Err("busy".to_string())).unwrap_err();
    assert_eq!(err.message, "读取 IOA 地址显示格式失败: busy");
    let value = prepare_slave_ioa_display_format_value(" Hexadecimal ").unwrap();
    assert_eq!(value, "\"hex\"");
    assert_eq!(read_slave_ioa_display_format(Ok(Some(value))).unwrap(), "hex");
    let err = prepare_slave_ioa_display_format_value("oct").unwrap_err();
    assert_eq!(err.message, "不支持的 IOA 地址显示格式: oct");
    assert!(finish_slave_ioa_display_format_write(Ok(())).is_ok());
    let err = finish_slave_ioa_display_format_write(Err("full".to_string())).unwrap_err();
    assert_eq!(err.message, "保存 IOA 地址显示格式失败: full");
}

#[test]
fn app_info_points_issues_and_docs_into_the_repository() {
    let info = iec104_simulator_backend::api::app_info("1.2.3", "MIT", "https://example.org/sim");
    assert_eq!(info.name, "IEC104协议模拟器");
    assert_eq!(info.version, "1.2.3");
    assert_eq!(info.license, "MIT");
    assert_eq!(info.issues_url, "https://example.org/sim/issues");
    assert_eq!(info.docs_url.as_deref(), Some("https://example.org/sim/tree/main/docs"));
}
