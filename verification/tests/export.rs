use iec104_simulator_backend::api::build_capture_export_meta;
use iec104_simulator_backend::api::ApiErrorCode;
use iec104_simulator_backend::export::{
    build_capture_export_response, build_template_export_response, decode_base64_bytes, decode_export_data,
    strip_ascii_whitespace, validate_export_path,
};

#[test]
fn exports_carry_base64_bytes() {
    let meta = build_capture_export_meta("master", "1", "pcap", None, "20240101-000000").unwrap();
    let response = build_capture_export_response(meta, b"abc");
    assert_eq!(response.file_name, "iec104-master-1-20240101-000000.pcap");
    assert_eq!(response.mime_type, "application/vnd.tcpdump.pcap");
    assert_eq!(response.data_base64, "YWJj");
    let template = build_template_export_response("points.csv".to_string(), b"ab");
    assert_eq!(template.data_base64, "YWI=");
    assert_eq!(template.mime_type, "text/csv;charset=utf-8");
    assert_eq!(build_template_export_response("e.csv".to_string(), b"").data_base64, "");
}

#[test]
fn saved_exports_decode_to_their_bytes() {
    let meta = build_capture_export_meta("slave", "7", "pcapng", None, "20240101-000000").unwrap();
    let bytes: Vec<u8> = (0u8..=255).collect();
    let response = build_capture_export_response(meta, &bytes);
    assert_eq!(decode_export_data(&response.data_base64).unwrap(), bytes);
    let template = build_template_export_response("t.csv".to_string(), b"ioa,name\n1,a\n");
    assert_eq!(decode_export_data(&template.data_base64).unwrap(), b"ioa,name\n1,a\n".to_vec());
}

#[test]
fn base64_decoding_ignores_ascii_whitespace() {
    assert_eq!(strip_ascii_whitespace(" YW\tJj\r\n\x0c"), "YWJj");
    assert_eq!(strip_ascii_whitespace("a\u{3000}b"), "a\u{3000}b");
    assert_eq!(decode_base64_bytes("YW Jj\n").unwrap(), b"abc".to_vec());
    assert_eq!(decode_base64_bytes("").unwrap(), Vec::<u8>::new());
    let err = decode_base64_bytes("YW!j").unwrap_err();
    assert!(err.starts_with("Base64 数据不合法: "));
    assert!(err.len() > "Base64 数据不合法: ".len());
}

#[test]
fn export_requests_are_checked() {
    assert_eq!(validate_export_path("  /tmp/a.pcap \n").unwrap(), "/tmp/a.pcap");
    let err = validate_export_path(" \t ").unwrap_err();
    assert_eq!(err.code, ApiErrorCode::InvalidExportPath);
    assert_eq!(err.message, "保存路径不能为空");
    let err = decode_export_data("not base64!").unwrap_err();
    assert_eq!(err.code, ApiErrorCode::InvalidExportData);
    assert!(err.message.starts_with("导出内容解码失败: Base64 数据不合法: "));
    assert!(err.params.is_none());
}
