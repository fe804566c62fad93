use iec104_simulator_backend::decoded::DecodedFileTransferRecord;
use iec104_simulator_backend::file_transfer::{MasterFileTransferStage, RecordWanted};
use iec104_simulator_backend::transfer_steps::{
    download_step, start_download, start_upload, upload_step, DownloadPhase, FlowEvent, FlowNext, UploadPhase,
};

fn ack(qualifier: u8) -> FlowEvent {
    FlowEvent::Answer(DecodedFileTransferRecord::AckSection { ioa: 7, file_name: 3, section: 1, qualifier })
}

#[test]
fn an_upload_steps_through_its_handshakes_and_segments() {
    let file = [1u8, 2, 3, 4, 5];
    let mut flow = start_upload(7, 3, &file, 100, 2).unwrap();
    let wanted = RecordWanted::SectionAck { file_name: 3, section: 1 };

    let step = upload_step(&mut flow, FlowEvent::Begin);
    let p = step.progress.unwrap();
    assert_eq!((p.bytes_done, p.bytes_total, p.section, p.segment), (Some(0), Some(5), Some(1), Some(0)));
    assert_eq!(step.stage, Some(MasterFileTransferStage::AwaitingUploadFileAck));
    assert_eq!(step.send, Some((120, vec![7, 0, 0, 3, 0, 0, 5, 0, 0])));
    assert!(matches!(step.next, FlowNext::Await { stage: MasterFileTransferStage::AwaitingUploadFileAck, wanted: w } if w == wanted));

    let step = upload_step(&mut flow, ack(0x01));
    assert_eq!(step.stage, Some(MasterFileTransferStage::AwaitingUploadSectionAck));
    assert_eq!(step.send, Some((121, vec![7, 0, 0, 3, 0, 0, 1, 5, 0, 0])));

    let step = upload_step(&mut flow, ack(0x04));
    assert_eq!(step.stage, Some(MasterFileTransferStage::SendingUploadData));
    assert_eq!(step.send, Some((125, vec![7, 0, 0, 3, 0, 1, 2, 1, 2])));
    assert!(matches!(step.next, FlowNext::Continue));

    let step = upload_step(&mut flow, FlowEvent::Sent);
    assert_eq!(step.progress.unwrap().bytes_done, Some(2));
    assert_eq!(step.send, Some((125, vec![7, 0, 0, 3, 0, 1, 2, 3, 4])));
    let step = upload_step(&mut flow, FlowEvent::Sent);
    assert_eq!(step.progress.unwrap().segment, Some(2));
    assert_eq!(step.send, Some((125, vec![7, 0, 0, 3, 0, 1, 1, 5])));
    let step = upload_step(&mut flow, FlowEvent::Sent);
    assert_eq!(step.progress.unwrap().bytes_done, Some(5));
    assert_eq!(step.stage, Some(MasterFileTransferStage::AwaitingUploadCompletionAck));
    assert_eq!(step.send, Some((123, vec![7, 0, 0, 3, 0, 3, 1, 3])));
    assert_eq!(flow.phase, UploadPhase::CompletionAck);

    let step = upload_step(&mut flow, ack(0x01));
    let p = step.progress.unwrap();
    assert_eq!((p.bytes_done, p.bytes_total, p.segment), (Some(5), Some(5), Some(3)));
    assert_eq!(step.stage, Some(MasterFileTransferStage::Finalizing));
    assert!(matches!(step.next, FlowNext::Done));
    assert_eq!(flow.phase, UploadPhase::Done);
}

#[test]
fn an_upload_ends_on_a_negative_acknowledgement() {
    let mut flow = start_upload(7, 3, &[1, 2], 100, 2).unwrap();
    upload_step(&mut flow, FlowEvent::Begin);
    let step = upload_step(&mut flow, ack(0x02));
    assert!(step.send.is_none() && step.stage.is_none());
    match step.next {
        FlowNext::Fail(m) => assert_eq!(m, "上传文件握手失败: 从站返回否定确认，文件不可用或长度异常 (AFQ=0x02)"),
        _ => panic!("expected a failure"),
    }
    assert_eq!(flow.phase, UploadPhase::Failed);
    assert_eq!(start_upload(7, 3, &[1, 2, 3], 2, 2).unwrap_err(), "上传文件超过单节上限 2 bytes");
}

#[test]
fn an_empty_upload_goes_straight_to_the_last_section() {
    let mut flow = start_upload(7, 3, &[], 100, 2).unwrap();
    upload_step(&mut flow, FlowEvent::Begin);
    upload_step(&mut flow, ack(0x01));
    let step = upload_step(&mut flow, ack(0x01));
    assert!(step.send.is_none());
    assert!(matches!(step.next, FlowNext::Continue));
    let step = upload_step(&mut flow, FlowEvent::Sent);
    assert!(step.progress.is_none());
    assert_eq!(step.send, Some((123, vec![7, 0, 0, 3, 0, 3, 1, 0])));
}

#[test]
fn a_download_selects_calls_stores_saves_and_acknowledges() {
    let mut flow = start_download(0x10, 3);
    let step = download_step(&mut flow, FlowEvent::Begin);
    assert_eq!(step.stage, Some(MasterFileTransferStage::AwaitingDownloadFileReady));
    assert_eq!(step.send, Some((122, vec![0x10, 0, 0, 3, 0, 3, 0])));

    let ready = DecodedFileTransferRecord::FileReady { ioa: 0x10, file_name: 3, length: 3, qualifier: 0 };
    let step = download_step(&mut flow, FlowEvent::Answer(ready));
    assert_eq!(step.progress.unwrap().bytes_total, Some(3));
    assert_eq!(step.stage, Some(MasterFileTransferStage::ReceivingDownloadSection));
    assert_eq!(step.send, Some((122, vec![0x10, 0, 0, 3, 0, 0x20, 1])));

    let section = DecodedFileTransferRecord::SectionReady { ioa: 0x10, file_name: 3, section: 1, length: 3, qualifier: 0 };
    let step = download_step(&mut flow, FlowEvent::Answer(section));
    assert!(step.send.is_none());
    assert!(matches!(step.next, FlowNext::Await { wanted: RecordWanted::SegmentOrLast { file_name: 3, section: 1 }, .. }));

    let segment = DecodedFileTransferRecord::Segment { ioa: 0x10, file_name: 3, section: 1, data: vec![1, 2, 3] };
    let step = download_step(&mut flow, FlowEvent::Answer(segment));
    assert!(matches!(step.next, FlowNext::Append(ref d) if *d == vec![1, 2, 3]));
    let step = download_step(&mut flow, FlowEvent::Appended { bytes_done: 3, segment: 1 });
    assert_eq!(step.progress.unwrap().bytes_done, Some(3));

    let last = DecodedFileTransferRecord::LastSection { ioa: 0x10, file_name: 3, last_section_number: 1, qualifier: 3 };
    let step = download_step(&mut flow, FlowEvent::Answer(last));
    assert_eq!(step.stage, Some(MasterFileTransferStage::Finalizing));
    assert!(matches!(step.next, FlowNext::Save));
    let step = download_step(&mut flow, FlowEvent::Saved);
    assert_eq!(step.send, Some((124, vec![0x10, 0, 0, 3, 0, 1, 1])));
    assert!(matches!(step.next, FlowNext::Done));
    assert_eq!(flow.phase, DownloadPhase::Done);
}

#[test]
fn a_download_refuses_a_section_of_another_length() {
    let mut flow = start_download(0x10, 3);
    download_step(&mut flow, FlowEvent::Begin);
    let ready = DecodedFileTransferRecord::FileReady { ioa: 0x10, file_name: 3, length: 3, qualifier: 0 };
    download_step(&mut flow, FlowEvent::Answer(ready));
    let section = DecodedFileTransferRecord::SectionReady { ioa: 0x10, file_name: 3, section: 1, length: 4, qualifier: 0 };
    match download_step(&mut flow, FlowEvent::Answer(section)).next {
        FlowNext::Fail(m) => assert_eq!(m, "下载节长度与文件长度不一致: file_ready=3 bytes, section_ready=4 bytes"),
        _ => panic!("expected a failure"),
    }
    let mut flow = start_download(0x10, 3);
    download_step(&mut flow, FlowEvent::Begin);
    let nack = DecodedFileTransferRecord::AckSection { ioa: 0x10, file_name: 3, section: 0, qualifier: 0x02 };
    match download_step(&mut flow, FlowEvent::Answer(nack)).next {
        FlowNext::Fail(m) => assert_eq!(m, "下载文件准备失败: 从站返回否定确认，文件不可用或长度异常 (AFQ=0x02)"),
        _ => panic!("expected a failure"),
    }
    assert!(!flow.accepts_event(&FlowEvent::Begin));
}
