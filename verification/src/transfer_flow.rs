//! The frames a master's file transfer flows send, their payloads, and the
//! decisions of the upload and download flows: what an upload sends in what
//! order, and when a download is complete enough to be saved and acknowledged.

use vstd::prelude::*;

use crate::file_transfer::{
    size_mismatch_message, snapshot_download_result, validate_downloaded_file_size,
    MasterFileTransferSessionRuntime, MasterFileTransferStage, MasterFileTransferState, FILE_TRANSFER_SINGLE_SECTION,
};
use crate::wire::{append_bytes, ioa3, le16, push_le16};

verus! {

/// A file transfer frame a master sends, by its type and fields.
#[derive(Debug)]
pub enum FileTransferFrame {
    /// TI 120, file ready: the file's length and a qualifier.
    FileReady { ioa: u32, nof: u16, qualifier: u8, length: u32 },
    /// TI 121, section ready: the section's length and a qualifier.
    SectionReady { ioa: u32, nof: u16, qualifier: u8, section: u8, length: u32 },
    /// TI 122, select and call of a file or a section.
    SelectCall { ioa: u32, nof: u16, qualifier: u8, section: u8 },
    /// TI 123, last section or segment, with the number of the last segment.
    LastSection { ioa: u32, nof: u16, qualifier: u8, section: u8, last_segment: u8 },
    /// TI 124, acknowledgement of a file or section.
    AckSection { ioa: u32, nof: u16, qualifier: u8, section: u8 },
    /// TI 125, a segment of a section's data.
    Segment { ioa: u32, nof: u16, section: u8, data: Vec<u8> },
}

/// The three-byte length-of-file field (low byte first).
pub open spec fn le24(v: u32) -> Seq<u8> {
    ioa3(v)
}

/// The type identification of a frame.
pub open spec fn frame_type_id(frame: FileTransferFrame) -> u8 {
    match frame {
        FileTransferFrame::FileReady { .. } => 120,
        FileTransferFrame::SectionReady { .. } => 121,
        FileTransferFrame::SelectCall { .. } => 122,
        FileTransferFrame::LastSection { .. } => 123,
        FileTransferFrame::AckSection { .. } => 124,
        FileTransferFrame::Segment { .. } => 125,
    }
}

/// The information object of a frame: its address, the file name, then the
/// fields in the order the frame lists them (lengths of files in three
/// bytes, a segment's length in one byte before its data).
pub open spec fn frame_payload(frame: FileTransferFrame) -> Seq<u8> {
    match frame {
        FileTransferFrame::FileReady { ioa, nof, qualifier, length } =>
            ioa3(ioa) + le16(nof) + seq![qualifier] + le24(length),
        FileTransferFrame::SectionReady { ioa, nof, qualifier, section, length } =>
            ioa3(ioa) + le16(nof) + seq![qualifier, section] + le24(length),
        FileTransferFrame::SelectCall { ioa, nof, qualifier, section } =>
            ioa3(ioa) + le16(nof) + seq![qualifier, section],
        FileTransferFrame::LastSection { ioa, nof, qualifier, section, last_segment } =>
            ioa3(ioa) + le16(nof) + seq![qualifier, section, last_segment],
        FileTransferFrame::AckSection { ioa, nof, qualifier, section } =>
            ioa3(ioa) + le16(nof) + seq![qualifier, section],
        FileTransferFrame::Segment { ioa, nof, section, data } =>
            ioa3(ioa) + le16(nof) + seq![section, data@.len() as u8] + data@,
    }
}

/// A frame whose fields fit their octets: a segment carries at most 255 bytes.
pub open spec fn frame_fits(frame: FileTransferFrame) -> bool {
    match frame {
        FileTransferFrame::Segment { data, .. } => data@.len() <= 255,
        _ => true,
    }
}

fn push_le24(out: &mut Vec<u8>, v: u32)
    ensures
        final(out)@ == old(out)@ + le24(v),
{
    out.push((v % 256) as u8);
    out.push(((v / 256) % 256) as u8);
    out.push(((v / 65536) % 256) as u8);
}

/// The type identification and the information object of a frame.
pub fn frame_bytes(frame: &FileTransferFrame) -> (r: (u8, Vec<u8>))
    requires
        frame_fits(*frame),
    ensures
        r.0 == frame_type_id(*frame),
        r.1@ == frame_payload(*frame),
{
    let mut out: Vec<u8> = Vec::new();
    let (ioa, nof) = match frame {
        FileTransferFrame::FileReady { ioa, nof, .. } => (*ioa, *nof),
        FileTransferFrame::SectionReady { ioa, nof, .. } => (*ioa, *nof),
        FileTransferFrame::SelectCall { ioa, nof, .. } => (*ioa, *nof),
        FileTransferFrame::LastSection { ioa, nof, .. } => (*ioa, *nof),
        FileTransferFrame::AckSection { ioa, nof, .. } => (*ioa, *nof),
        FileTransferFrame::Segment { ioa, nof, .. } => (*ioa, *nof),
    };
    push_le24(&mut out, ioa);
    push_le16(&mut out, nof);
    let ghost head = out@;
    assert(head =~= ioa3(ioa) + le16(nof));
    match frame {
        FileTransferFrame::FileReady { qualifier, length, .. } => {
            out.push(*qualifier);
            push_le24(&mut out, *length);
            assert(out@ =~= frame_payload(*frame));
            (120, out)
        },
        FileTransferFrame::SectionReady { qualifier, section, length, .. } => {
            out.push(*qualifier);
            out.push(*section);
            push_le24(&mut out, *length);
            assert(out@ =~= frame_payload(*frame));
            (121, out)
        },
        FileTransferFrame::SelectCall { qualifier, section, .. } => {
            out.push(*qualifier);
            out.push(*section);
            assert(out@ =~= frame_payload(*frame));
            (122, out)
        },
        FileTransferFrame::LastSection { qualifier, section, last_segment, .. } => {
            out.push(*qualifier);
            out.push(*section);
            out.push(*last_segment);
            assert(out@ =~= frame_payload(*frame));
            (123, out)
        },
        FileTransferFrame::AckSection { qualifier, section, .. } => {
            out.push(*qualifier);
            out.push(*section);
            assert(out@ =~= frame_payload(*frame));
            (124, out)
        },
        FileTransferFrame::Segment { section, data, .. } => {
            out.push(*section);
            out.push(data.len() as u8);
            append_bytes(&mut out, data.as_slice());
            assert(out@ =~= frame_payload(*frame));
            (125, out)
        },
    }
}

/// The frames an upload sends, in order; between them it waits for the
/// slave's acknowledgements.
#[derive(Debug)]
pub struct UploadPlan {
    /// TI 120 announcing the file; the slave acknowledges it (AFQ bit 0x01).
    pub file_ready: FileTransferFrame,
    /// TI 121 announcing the one section; acknowledged with any of AFQ 0x07.
    pub section_ready: FileTransferFrame,
    /// TI 125 segments carrying the file, in order.
    pub segments: Vec<FileTransferFrame>,
    /// TI 123 closing the section with the number of the last segment, sent
    /// after the segments and acknowledged with AFQ bit 0x01; the refusal when
    /// there are more segments than the field counts.
    pub last_section: Result<FileTransferFrame, String>,
}

/// The data of segment frames, one after the other.
pub open spec fn segment_data(frames: Seq<FileTransferFrame>) -> Seq<u8>
    decreases frames.len(),
{
    if frames.len() == 0 {
        Seq::empty()
    } else {
        segment_data(frames.drop_last()) + match frames.last() {
            FileTransferFrame::Segment { data, .. } => data@,
            _ => Seq::empty(),
        }
    }
}

/// A segment frame of the file's one section, at most `max` bytes long, full
/// unless it is the last.
pub open spec fn upload_segment_ok(frame: FileTransferFrame, ioa: u32, nof: u16, max: int, last: bool) -> bool {
    frame matches FileTransferFrame::Segment { ioa: i, nof: f, section: s, data }
        && i == ioa && f == nof && s == FILE_TRANSFER_SINGLE_SECTION
        && 0 < data@.len() <= max && (!last ==> data@.len() == max)
}

/// `p` uploads `file` as the one section of file `nof` at `ioa`, in segments
/// of `max` bytes.
pub open spec fn is_upload_plan(p: UploadPlan, ioa: u32, nof: u16, file: Seq<u8>, max: int) -> bool {
    &&& p.file_ready == (FileTransferFrame::FileReady { ioa, nof, qualifier: 0, length: file.len() as u32 })
    &&& p.section_ready == (FileTransferFrame::SectionReady {
        ioa, nof, qualifier: 0, section: FILE_TRANSFER_SINGLE_SECTION, length: file.len() as u32 })
    &&& segment_data(p.segments@) == file
    &&& forall|k: int| 0 <= k < p.segments@.len() ==>
        upload_segment_ok(#[trigger] p.segments@[k], ioa, nof, max, k == p.segments@.len() - 1)
    &&& match p.last_section {
        Ok(f) => p.segments@.len() <= 255 && f == (FileTransferFrame::LastSection {
            ioa, nof, qualifier: 3, section: FILE_TRANSFER_SINGLE_SECTION, last_segment: p.segments@.len() as u8 }),
        Err(m) => p.segments@.len() > 255 && m@ == "单节段号超过 255"@,
    }
}

/// The refusal of a file larger than one section carries.
pub open spec fn upload_too_large_message(max_file_size: u32) -> Seq<char> {
    "上传文件超过单节上限 "@ + crate::text::decimal(max_file_size as nat) + " bytes"@
}

/// The frames that upload `file` as the one section of file `nof` at `ioa`,
/// in segments of `segment_max` bytes; a file larger than `max_file_size`
/// is refused.
pub fn plan_upload(ioa: u32, nof: u16, file: &[u8], max_file_size: u32, segment_max: usize) -> (r: Result<UploadPlan, String>)
    requires
        0 < segment_max <= 255,
    ensures
        (file@.len() > max_file_size) <==> r is Err,
        r matches Err(m) ==> m@ == upload_too_large_message(max_file_size),
        r matches Ok(p) ==> is_upload_plan(p, ioa, nof, file@, segment_max as int),
{
    if file.len() > max_file_size as usize {
        let m = crate::text::text_with_number("上传文件超过单节上限 ", max_file_size as u64, " bytes");
        return Err(m);
    }
    let n = file.len();
    let mut segments: Vec<FileTransferFrame> = Vec::new();
    let mut start: usize = 0;
    while start < n
        invariant
            n == file@.len(),
            0 < segment_max <= 255,
            start <= n,
            segment_data(segments@) == file@.subrange(0, start as int),
            forall|k: int| 0 <= k < segments@.len() ==>
                upload_segment_ok(#[trigger] segments@[k], ioa, nof, segment_max as int, start == n && k == segments@.len() - 1),
        decreases n - start,
    {
        let end: usize = if n - start > segment_max { start + segment_max } else { n };
        let mut piece: Vec<u8> = Vec::new();
        let mut i: usize = start;
        while i < end
            invariant
                start <= i <= end <= n,
                n == file@.len(),
                piece@ == file@.subrange(start as int, i as int),
            decreases end - i,
        {
            piece.push(file[i]);
            assert(piece@ =~= file@.subrange(start as int, i + 1));
            i = i + 1;
        }
        let ghost before = segments@;
        segments.push(FileTransferFrame::Segment { ioa, nof, section: FILE_TRANSFER_SINGLE_SECTION, data: piece });
        proof {
            assert(segments@.drop_last() =~= before);
            assert(file@.subrange(0, start as int) + file@.subrange(start as int, end as int) =~= file@.subrange(0, end as int));
            assert forall|k: int| 0 <= k < segments@.len() implies
                upload_segment_ok(#[trigger] segments@[k], ioa, nof, segment_max as int, end == n && k == segments@.len() - 1) by {
                if k < before.len() {
                    assert(segments@[k] == before[k]);
                }
            }
        }
        start = end;
    }
    assert(file@.subrange(0, n as int) =~= file@);
    let length = n as u32;
    let count = segments.len();
    let last_section = if count <= 255 {
        Ok(FileTransferFrame::LastSection { ioa, nof, qualifier: 3, section: FILE_TRANSFER_SINGLE_SECTION, last_segment: count as u8 })
    } else {
        Err(String::from_str("单节段号超过 255"))
    };
    Ok(UploadPlan {
        file_ready: FileTransferFrame::FileReady { ioa, nof, qualifier: 0, length },
        section_ready: FileTransferFrame::SectionReady { ioa, nof, qualifier: 0, section: FILE_TRANSFER_SINGLE_SECTION, length },
        segments,
        last_section,
    })
}

/// The frames a download sends before the data arrives: the select of the
/// file (SCQ 0x03, section 0), then the call of its one section (SCQ 0x20).
pub fn plan_download(ioa: u32, nof: u16) -> (r: (FileTransferFrame, FileTransferFrame))
    ensures
        r.0 == (FileTransferFrame::SelectCall { ioa, nof, qualifier: 0x03, section: 0 }),
        r.1 == (FileTransferFrame::SelectCall { ioa, nof, qualifier: 0x20, section: FILE_TRANSFER_SINGLE_SECTION }),
{
    (
        FileTransferFrame::SelectCall { ioa, nof, qualifier: 0x03, section: 0 },
        FileTransferFrame::SelectCall { ioa, nof, qualifier: 0x20, section: FILE_TRANSFER_SINGLE_SECTION },
    )
}

/// Once the last section of a download has arrived and the session is
/// finalizing: the bytes to save, the session id, and the acknowledgement of
/// the section (AFQ 0x01) to send after saving. A session that is not
/// finalizing, or bytes that do not add up to the announced length, are
/// refused, so nothing is saved or acknowledged then.
pub fn finish_download(session: &MasterFileTransferSessionRuntime, ioa: u32, nof: u16) -> (r: Result<(Vec<u8>, String, FileTransferFrame), String>)
    ensures
        (session.snapshot.state != MasterFileTransferState::Running || session.stage != MasterFileTransferStage::Finalizing)
            ==> (r matches Err(m) && m@ == "文件传输会话不在下载收尾阶段"@),
        session.snapshot.state == MasterFileTransferState::Running && session.stage == MasterFileTransferStage::Finalizing
            && session.download_buffer@.len() != session.snapshot.bytes_total
            ==> (r matches Err(m) && m@ == size_mismatch_message(session.snapshot.bytes_total, session.download_buffer@.len() as usize)),
        r is Ok <==> (session.snapshot.state == MasterFileTransferState::Running && session.stage == MasterFileTransferStage::Finalizing
            && session.download_buffer@.len() == session.snapshot.bytes_total),
        r matches Ok(res) ==> {
            let (bytes, id, ack) = res;
            &&& bytes@ == session.download_buffer@
            &&& bytes@.len() == session.snapshot.bytes_total
            &&& id == session.snapshot.session_id
            &&& ack == (FileTransferFrame::AckSection { ioa, nof, qualifier: 0x01, section: FILE_TRANSFER_SINGLE_SECTION })
        },
{
    let (bytes, id, total) = snapshot_download_result(session)?;
    validate_downloaded_file_size(total, bytes.len())?;
    Ok((bytes, id, FileTransferFrame::AckSection { ioa, nof, qualifier: 0x01, section: FILE_TRANSFER_SINGLE_SECTION }))
}

} // verus!
