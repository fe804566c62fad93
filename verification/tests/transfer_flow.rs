use iec104_simulator_backend::file_transfer::{
    append_download_chunk, set_file_transfer_stage, start_file_transfer_session, update_file_transfer_progress,
    MasterFileTransferMode, MasterFileTransferStage,
};
use iec104_simulator_backend::transfer_flow::{finish_download, frame_bytes, plan_download, plan_upload, FileTransferFrame};

#[test]
fn frames_are_laid_out_field_by_field() {
    let ready = FileTransferFrame::FileReady { ioa: 0x010203, nof: 0x0405, qualifier: 0, length: 0x060708 };
    assert_eq!(frame_bytes(&ready), (120, vec![0x03, 0x02, 0x01, 0x05, 0x04, 0x00, 0x08, 0x07, 0x06]));
    let section = FileTransferFrame::SectionReady { ioa: 1, nof: 2, qualifier: 0, section: 1, length: 300 };
    assert_eq!(frame_bytes(&section), (121, vec![1, 0, 0, 2, 0, 0, 1, 44, 1, 0]));
    let segment = FileTransferFrame::Segment { ioa: 1, nof: 2, section: 1, data: vec![9, 8, 7] };
    assert_eq!(frame_bytes(&segment), (125, vec![1, 0, 0, 2, 0, 1, 3, 9, 8, 7]));
    let last = FileTransferFrame::LastSection { ioa: 1, nof: 2, qualifier: 3, section: 1, last_segment: 4 };
    assert_eq!(frame_bytes(&last), (123, vec![1, 0, 0, 2, 0, 3, 1, 4]));
    let ack = FileTransferFrame::AckSection { ioa: 1, nof: 2, qualifier: 1, section: 1 };
    assert_eq!(frame_bytes(&ack), (124, vec![1, 0, 0, 2, 0, 1, 1]));
    let (select, call) = plan_download(1, 2);
    assert_eq!(frame_bytes(&select), (122, vec![1, 0, 0, 2, 0, 3, 0]));
    assert_eq!(frame_bytes(&call), (122, vec![1, 0, 0, 2, 0, 0x20, 1]));
}

#[test]
fn uploads_send_the_file_in_segments_then_the_last_section() {
    let file = [1u8, 2, 3, 4, 5];
    let plan = plan_upload(7, 3, &file, 100, 2).unwrap();
    assert!(matches!(plan.file_ready, FileTransferFrame::FileReady { ioa: 7, nof: 3, qualifier: 0, length: 5 }));
    assert!(matches!(plan.section_ready, FileTransferFrame::SectionReady { section: 1, length: 5, .. }));
    let data: Vec<Vec<u8>> = plan
        .segments
        .iter()
        .map(|f| match f {
            FileTransferFrame::Segment { data, .. } => data.clone(),
            _ => panic!("not a segment"),
        })
        .collect();
    assert_eq!(data, vec![vec![1, 2], vec![3, 4], vec![5]]);
    assert!(matches!(plan.last_section, Ok(FileTransferFrame::LastSection { qualifier: 3, section: 1, last_segment: 3, .. })));
    assert!(plan_upload(7, 3, &[], 100, 2).unwrap().segments.is_empty());
    assert_eq!(plan_upload(7, 3, &file, 4, 2).unwrap_err(), "上传文件超过单节上限 4 bytes");
    let big = vec![0u8; 256];
    assert_eq!(plan_upload(7, 3, &big, 1000, 1).unwrap().last_section.unwrap_err(), "单节段号超过 255");
}

#[test]
fn downloads_are_saved_and_acknowledged_only_when_complete() {
    let mut s = start_file_transfer_session(None, "1", "conn", 2, 1, MasterFileTransferMode::Download, 0x10, Some(3), Some("/tmp/f".to_string()), 100).unwrap();
    update_file_transfer_progress(&mut s, Some(0), Some(3), Some(1), Some(0), 110);
    assert_eq!(finish_download(&s, 0x10, 3).unwrap_err(), "文件传输会话不在下载收尾阶段");
    set_file_transfer_stage(&mut s, MasterFileTransferStage::ReceivingDownloadSection).unwrap();
    append_download_chunk(&mut s, &[1, 2], 120).unwrap();
    set_file_transfer_stage(&mut s, MasterFileTransferStage::Finalizing).unwrap();
    assert_eq!(finish_download(&s, 0x10, 3).unwrap_err(), "下载文件长度不匹配: expected=3 bytes, got=2 bytes");
    set_file_transfer_stage(&mut s, MasterFileTransferStage::ReceivingDownloadSection).unwrap();
    append_download_chunk(&mut s, &[3], 130).unwrap();
    set_file_transfer_stage(&mut s, MasterFileTransferStage::Finalizing).unwrap();
    let (bytes, id, ack) = finish_download(&s, 0x10, 3).unwrap();
    assert_eq!(bytes, vec![1, 2, 3]);
    assert_eq!(id, s.snapshot.session_id);
    assert!(matches!(ack, FileTransferFrame::AckSection { ioa: 0x10, nof: 3, qualifier: 1, section: 1 }));
}
