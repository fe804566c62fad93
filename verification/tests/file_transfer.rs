use iec104_simulator_backend::api::FileTransferFailure;
use iec104_simulator_backend::decoded::{DecodedAsdu, DecodedAsduBody, DecodedFileTransferRecord};
use iec104_simulator_backend::file_transfer::{
    ack_result, append_download_chunk, cancel_file_transfer_session, check_download_section_length,
    file_ready_result, format_file_transfer_ack_error, last_segment_number, section_ready_result,
    set_file_transfer_failed, set_file_transfer_stage, set_file_transfer_success, should_store_directory_entry,
    snapshot_download_result, start_file_transfer_session, update_file_transfer_progress, upload_progress,
    upload_segments, validate_connection_state, validate_downloaded_file_size, validate_file_transfer_request,
    validate_file_transfer_request_fields,
    MasterFileTransferMode, MasterFileTransferRequest, MasterFileTransferSessionRuntime, MasterFileTransferStage,
    MasterFileTransferState,
};
use iec104_simulator_backend::supervision::{DataTransferState, TransportState};
use iec104_simulator_backend::file_transfer::{handle_file_transfer_incoming, pick_default_transfer_slave};

fn session(mode: MasterFileTransferMode) -> MasterFileTransferSessionRuntime {
    start_file_transfer_session(None, "1", "conn", 2, 1, mode, 0x10, Some(3), Some("/tmp/f".to_string()), 100).unwrap()
}

#[test]
fn sessions_start_once_per_connection() {
    let s = session(MasterFileTransferMode::Download);
    assert_eq!(s.snapshot.state, MasterFileTransferState::Running);
    assert_eq!(s.stage, MasterFileTransferStage::Preparing);
    assert_eq!(s.snapshot.session_id.len(), 36);
    let busy = start_file_transfer_session(Some(&s), "1", "conn", 2, 1, MasterFileTransferMode::Upload, 1, Some(1), None, 200);
    assert_eq!(busy.unwrap_err(), "当前连接已有运行中的文件传输会话");
    let mut done = s;
    set_file_transfer_success(&mut done, 150);
    assert_eq!(done.snapshot.state, MasterFileTransferState::Success);
    assert_eq!(done.stage, MasterFileTransferStage::Finished);
    let next = start_file_transfer_session(Some(&done), "1", "conn", 2, 1, MasterFileTransferMode::Upload, 1, Some(1), None, 200).unwrap();
    assert_ne!(next.snapshot.session_id, done.snapshot.session_id);
}

#[test]
fn finished_sessions_stay_finished() {
    let mut s = session(MasterFileTransferMode::Directory);
    set_file_transfer_stage(&mut s, MasterFileTransferStage::DirectoryListing).unwrap();
    assert_eq!(s.stage_epoch, 1);
    cancel_file_transfer_session(&mut s, 300);
    assert_eq!(s.snapshot.state, MasterFileTransferState::Cancelled);
    assert_eq!(s.snapshot.failure_reason.as_deref(), Some("用户取消"));
    assert!(s.cancel_requested);
    set_file_transfer_failed(&mut s, "late".to_string(), 400);
    set_file_transfer_success(&mut s, 500);
    update_file_transfer_progress(&mut s, Some(9), None, None, None, 600);
    assert_eq!(s.snapshot.state, MasterFileTransferState::Cancelled);
    assert_eq!(s.snapshot.updated_at_ms, 300);
    assert_eq!(s.snapshot.bytes_done, 0);
    assert_eq!(set_file_transfer_stage(&mut s, MasterFileTransferStage::Finalizing).unwrap_err(), "文件传输会话已结束");
}

#[test]
fn downloads_collect_their_segments() {
    let mut s = session(MasterFileTransferMode::Download);
    update_file_transfer_progress(&mut s, None, Some(5), Some(1), None, 110);
    assert!(append_download_chunk(&mut s, &[1, 2], 120).is_err());
    set_file_transfer_stage(&mut s, MasterFileTransferStage::ReceivingDownloadSection).unwrap();
    assert_eq!(append_download_chunk(&mut s, &[1, 2], 130).unwrap(), (2, 1));
    assert_eq!(append_download_chunk(&mut s, &[3, 4, 5], 140).unwrap(), (5, 2));
    assert_eq!(append_download_chunk(&mut s, &[6], 150).unwrap_err(), "下载数据超过配额: expected=5 next=6");
    assert_eq!(snapshot_download_result(&s).unwrap_err(), "文件传输会话不在下载收尾阶段");
    set_file_transfer_stage(&mut s, MasterFileTransferStage::Finalizing).unwrap();
    let (bytes, id, total) = snapshot_download_result(&s).unwrap();
    assert_eq!(bytes, vec![1, 2, 3, 4, 5]);
    assert_eq!(id, s.snapshot.session_id);
    assert_eq!(total, 5);
    assert!(validate_downloaded_file_size(5, 5).is_ok());
    assert_eq!(validate_downloaded_file_size(5, 4).unwrap_err(), "下载文件长度不匹配: expected=5 bytes, got=4 bytes");
}

#[test]
fn acknowledgements_are_read() {
    let ready = DecodedFileTransferRecord::FileReady { ioa: 1, file_name: 3, length: 77, qualifier: 0 };
    assert_eq!(file_ready_result(&ready).unwrap(), 77);
    let nack = DecodedFileTransferRecord::AckSection { ioa: 1, file_name: 3, section: 1, qualifier: 0x02 };
    assert_eq!(
        file_ready_result(&nack).unwrap_err(),
        "下载文件准备失败: 从站返回否定确认，文件不可用或长度异常 (AFQ=0x02)"
    );
    assert_eq!(section_ready_result(&ready).unwrap_err(), "文件传输响应类型不符");
    let section = DecodedFileTransferRecord::SectionReady { ioa: 1, file_name: 3, section: 1, length: 77, qualifier: 0 };
    assert_eq!(section_ready_result(&section).unwrap(), 77);
    let pos = DecodedFileTransferRecord::AckSection { ioa: 1, file_name: 3, section: 1, qualifier: 0x01 };
    assert!(ack_result(&pos, 0x01, "上传文件").is_ok());
    assert_eq!(ack_result(&nack, 0x01, "上传文件").unwrap_err(), "上传文件失败: 从站返回否定确认，文件不可用或长度异常 (AFQ=0x02)");
    assert_eq!(format_file_transfer_ack_error("请求文件节", 0x08), "请求文件节失败: 从站返回否定确认，节请求无效或会话状态异常 (AFQ=0x08)");
    assert_eq!(format_file_transfer_ack_error("x", 0xAB), "x失败: 从站返回未知确认 (AFQ=0xAB)");
    assert!(check_download_section_length(0, 10).is_ok());
    assert!(check_download_section_length(10, 10).is_ok());
    assert_eq!(
        check_download_section_length(10, 9).unwrap_err(),
        "下载节长度与文件长度不一致: file_ready=10 bytes, section_ready=9 bytes"
    );
}

#[test]
fn uploads_are_cut_into_segments() {
    let file: Vec<u8> = (0u8..10).collect();
    let segments = upload_segments(&file, 4);
    assert_eq!(segments, vec![vec![0, 1, 2, 3], vec![4, 5, 6, 7], vec![8, 9]]);
    assert!(upload_segments(&[], 4).is_empty());
    assert_eq!(upload_progress(2, 4, 10), 8);
    assert_eq!(upload_progress(3, 4, 10), 10);
    assert_eq!(last_segment_number(255).unwrap(), 255);
    assert_eq!(last_segment_number(256).unwrap_err(), "单节段号超过 255");
    assert!(should_store_directory_entry(0, 0, true));
    assert!(should_store_directory_entry(0, 5, false));
    assert!(!should_store_directory_entry(0, 0, false));
}

fn request(mode: MasterFileTransferMode) -> MasterFileTransferRequest {
    MasterFileTransferRequest {
        connection_id: "conn".to_string(),
        slave_id: 1,
        common_address: 1,
        mode,
        ioa: 0x10,
        nof: Some(2),
        local_path: Some("/tmp/x".to_string()),
        query_range_start_time: [0, 0, 0, 0, 1, 1, 24],
        query_range_end_time: [0, 0, 0, 0, 2, 1, 24],
        max_asdu_bytes: 249,
    }
}

#[test]
fn file_transfer_requests_are_checked_in_order() {
    assert!(validate_file_transfer_request(&request(MasterFileTransferMode::Download), Some(1000), &Ok(0)).is_ok());
    let no_ca = MasterFileTransferRequest { common_address: 0, ..request(MasterFileTransferMode::Directory) };
    assert_eq!(validate_file_transfer_request(&no_ca, Some(1000), &Ok(0)).unwrap_err(), "文件传输 CA 必须在 1..=65535");
    let wide = MasterFileTransferRequest { ioa: 0x0100_0000, ..request(MasterFileTransferMode::Upload) };
    assert_eq!(validate_file_transfer_request_fields(&wide, Some(1000)).unwrap_err(), "文件传输 IOA 超过 24 位");
    assert!(validate_file_transfer_request_fields(&request(MasterFileTransferMode::Upload), Some(1000)).is_ok());
    let small = MasterFileTransferRequest { max_asdu_bytes: 13, ..request(MasterFileTransferMode::Directory) };
    assert_eq!(validate_file_transfer_request(&small, Some(1000), &Ok(0)).unwrap_err(), "max_asdu_bytes 过小，无法承载 TI125");
    let no_nof = MasterFileTransferRequest { nof: Some(0), ..request(MasterFileTransferMode::Upload) };
    assert_eq!(validate_file_transfer_request(&no_nof, Some(1000), &Ok(0)).unwrap_err(), "下载/上传/日志查询必须提供非零 NOF");
    let blank = MasterFileTransferRequest { local_path: Some("  ".to_string()), ..request(MasterFileTransferMode::Download) };
    assert_eq!(validate_file_transfer_request(&blank, Some(1000), &Ok(0)).unwrap_err(), "下载/上传必须提供 local_path");
    let reversed = MasterFileTransferRequest {
        query_range_start_time: [0, 0, 0, 0, 3, 1, 24],
        ..request(MasterFileTransferMode::QueryLog)
    };
    assert_eq!(validate_file_transfer_request(&reversed, Some(1000), &Ok(0)).unwrap_err(), "查询起始时间不能晚于结束时间");
    let bad_time = MasterFileTransferRequest {
        query_range_end_time: [0, 0, 0, 0, 31, 2, 24],
        ..request(MasterFileTransferMode::QueryLog)
    };
    assert_eq!(validate_file_transfer_request(&bad_time, Some(1000), &Ok(0)).unwrap_err(), "query_range_end_time 不是合法 CP56");
    let upload = request(MasterFileTransferMode::Upload);
    assert_eq!(
        validate_file_transfer_request(&upload, Some(1000), &Err("no such file".to_string())).unwrap_err(),
        "读取上传文件失败: no such file"
    );
    assert_eq!(validate_file_transfer_request(&upload, Some(1000), &Ok(1001)).unwrap_err(), "上传文件超过上限 1000 bytes");
    assert!(validate_file_transfer_request(&upload, Some(1000), &Ok(1000)).is_ok());
}

#[test]
fn transfers_need_a_started_link() {
    assert!(matches!(validate_connection_state(None), Err(FileTransferFailure::NotConnected)));
    assert!(matches!(
        validate_connection_state(Some((TransportState::Connecting, DataTransferState::Started))),
        Err(FileTransferFailure::NotConnected)
    ));
    match validate_connection_state(Some((TransportState::Connected, DataTransferState::Stopped))) {
        Err(FileTransferFailure::Protocol(m)) => assert_eq!(m, "业务链路未启动(STARTDT)"),
        other => panic!("unexpected {other:?}"),
    }
    assert!(validate_connection_state(Some((TransportState::Connected, DataTransferState::Started))).is_ok());
}

#[test]
fn default_transfer_slave_is_the_lowest_enabled_address() {
    let rows = vec![(Some(5), 3, true), (None, 1, false), (Some(7), 2, true), (Some(8), 2, true)];
    assert_eq!(pick_default_transfer_slave(&rows), Some((7, 2)));
    assert_eq!(pick_default_transfer_slave(&vec![(Some(1), 1, false)]), None);
    assert_eq!(pick_default_transfer_slave(&vec![(None, 9, true)]), Some((0, 9)));
}

fn directory_record(ioa: u32, file_name: u16, length: u32) -> DecodedFileTransferRecord {
    DecodedFileTransferRecord::Directory {
        ioa,
        file_name,
        length,
        status_raw: 0,
        is_file: true,
        is_last_file_of_directory: false,
        timestamp: None,
    }
}

#[test]
fn incoming_records_of_the_session_are_taken_in() {
    let mut s = session(MasterFileTransferMode::Directory);
    set_file_transfer_stage(&mut s, MasterFileTransferStage::DirectoryListing).unwrap();
    let asdu = DecodedAsdu {
        type_id: 126,
        cause: 13,
        common_address: 1,
        body: DecodedAsduBody::FileTransfers { items: vec![directory_record(0x10, 5, 10), directory_record(0x11, 6, 20)] },
    };
    assert!(handle_file_transfer_incoming(&mut s, &asdu, 700));
    assert_eq!(s.inbox.len(), 1);
    assert_eq!(s.snapshot.directory_entries.len(), 1);
    assert_eq!(s.snapshot.directory_entries[0].nof, 5);
    assert_eq!(s.snapshot.directory_entries[0].length, 10);
    assert_eq!(s.snapshot.updated_at_ms, 700);
    assert_eq!(s.snapshot.state, MasterFileTransferState::Running);

    let wrong_cause = DecodedAsdu { cause: 7, ..asdu };
    assert!(!handle_file_transfer_incoming(&mut s, &wrong_cause, 800));
    assert_eq!(s.inbox.len(), 1);
    assert_eq!(s.snapshot.updated_at_ms, 700);

    let other_ioa = DecodedAsdu {
        type_id: 126,
        cause: 13,
        common_address: 1,
        body: DecodedAsduBody::FileTransfers { items: vec![directory_record(0x11, 6, 20)] },
    };
    assert!(!handle_file_transfer_incoming(&mut s, &other_ioa, 900));
    assert_eq!(s.snapshot.updated_at_ms, 700);
}
