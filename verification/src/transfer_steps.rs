//! The upload and download flows of a master's file transfer as step
//! functions: given the flow's state and what just happened (the flow began,
//! a frame went out, the slave answered, a segment was stored, the file was
//! saved), a step says what to do next and moves the flow on. The caller
//! records the progress, sets the session's stage, sends the frame and then
//! waits, continues, stores, saves, finishes or fails as the step says.

use vstd::prelude::*;

use crate::decoded::DecodedFileTransferRecord;
use crate::file_transfer::{
    ack_error_message, ack_result, check_download_section_length, file_ready_result, section_ready_result,
    upload_progress, MasterFileTransferStage, RecordWanted, FILE_TRANSFER_SINGLE_SECTION,
};
use crate::text::decimal;
use crate::transfer_flow::{
    frame_bytes, frame_fits, frame_payload, frame_type_id, is_upload_plan, plan_upload, segment_data, upload_segment_ok,
    upload_too_large_message, FileTransferFrame, UploadPlan,
};

verus! {

/// Progress to show; each given value replaces the shown one.
#[derive(Clone, Copy, Debug)]
pub struct TransferProgress {
    pub bytes_done: Option<u64>,
    pub bytes_total: Option<u64>,
    pub section: Option<u8>,
    pub segment: Option<u32>,
}

/// What the caller does once the step's progress, stage and frame are done.
#[derive(Debug)]
pub enum FlowNext {
    /// Wait in `stage` for the record `wanted`, then step with `Answer`.
    Await { stage: MasterFileTransferStage, wanted: RecordWanted },
    /// Step again at once with `Sent`.
    Continue,
    /// Store these downloaded bytes in the session, then step with `Appended`.
    Append(Vec<u8>),
    /// Save the downloaded file, then step with `Saved`.
    Save,
    /// The flow succeeded.
    Done,
    /// The flow failed for this reason.
    Fail(String),
}

/// One step of a flow: the progress to record first, then the stage to move
/// the session to (a refusal there ends the flow), then the frame to send (its
/// type identification and information object), then what comes next.
#[derive(Debug)]
pub struct FlowStep {
    pub progress: Option<TransferProgress>,
    pub stage: Option<MasterFileTransferStage>,
    pub send: Option<(u8, Vec<u8>)>,
    pub next: FlowNext,
}

/// What just happened to a flow.
#[derive(Debug)]
pub enum FlowEvent {
    /// The flow begins.
    Begin,
    /// The frame of the last step went out.
    Sent,
    /// The awaited record arrived.
    Answer(DecodedFileTransferRecord),
    /// The downloaded bytes were stored: the bytes so far and the segment number.
    Appended { bytes_done: u64, segment: u32 },
    /// The downloaded file was saved.
    Saved,
}

/// The step sends `frame`.
pub open spec fn sends(r: FlowStep, frame: FileTransferFrame) -> bool {
    r.send matches Some(out) && out.0 == frame_type_id(frame) && out.1@ == frame_payload(frame)
}

/// The step neither records progress, nor moves the stage, nor sends.
pub open spec fn quiet(r: FlowStep) -> bool {
    r.progress is None && r.stage is None && r.send is None
}

/// The step ends the flow with `reason`, doing nothing else.
pub open spec fn fails_with(r: FlowStep, reason: Seq<char>) -> bool {
    &&& quiet(r)
    &&& r.next matches FlowNext::Fail(m) && m@ == reason
}

/// The step then waits in `stage` for `wanted`.
pub open spec fn awaits(r: FlowStep, stage: MasterFileTransferStage, wanted: RecordWanted) -> bool {
    r.next matches FlowNext::Await { stage: s, wanted: w } && s == stage && w == wanted
}

/// A full progress record of the file's one section.
pub open spec fn progress_of(done: Option<u64>, total: Option<u64>, segment: u32) -> TransferProgress {
    TransferProgress { bytes_done: done, bytes_total: total, section: Some(FILE_TRANSFER_SINGLE_SECTION), segment: Some(segment) }
}

/// An acknowledgement whose qualifier has a bit of `mask`.
pub open spec fn ack_passes(rec: DecodedFileTransferRecord, mask: u8) -> bool {
    rec matches DecodedFileTransferRecord::AckSection { qualifier, .. } && qualifier & mask != 0
}

/// Why an answer that is not a passing acknowledgement ends the step `context`.
pub open spec fn ack_refusal(rec: DecodedFileTransferRecord, context: Seq<char>) -> Seq<char> {
    match rec {
        DecodedFileTransferRecord::AckSection { qualifier, .. } => ack_error_message(context, qualifier),
        _ => "文件传输响应类型不符"@,
    }
}

fn fail_step(reason: String) -> (r: FlowStep)
    ensures
        fails_with(r, reason@),
{
    FlowStep { progress: None, stage: None, send: None, next: FlowNext::Fail(reason) }
}

fn send_of(frame: &FileTransferFrame) -> (r: Option<(u8, Vec<u8>)>)
    requires
        frame_fits(*frame),
    ensures
        r matches Some(out) && out.0 == frame_type_id(*frame) && out.1@ == frame_payload(*frame),
{
    Some(frame_bytes(frame))
}

// ---------------------------------------------------------------- upload

/// Where an upload stands.
#[derive(Clone, Copy, Debug, PartialEq, Eq, Structural)]
pub enum UploadPhase {
    /// Not begun.
    Start,
    /// File ready sent; waiting for its acknowledgement.
    FileAck,
    /// Section ready sent; waiting for its acknowledgement.
    SectionAck,
    /// `sent` segments are out.
    Sending { sent: usize },
    /// Last section sent; waiting for the completion acknowledgement.
    CompletionAck,
    /// Uploaded.
    Done,
    /// Ended by a refusal.
    Failed,
}

/// An upload of a file as the one section of file `nof` at `ioa`.
#[derive(Debug)]
pub struct UploadFlow {
    pub ioa: u32,
    pub nof: u16,
    /// The file's length.
    pub total: usize,
    /// The largest segment.
    pub segment_max: usize,
    /// The frames the upload sends.
    pub plan: UploadPlan,
    pub phase: UploadPhase,
}

impl UploadFlow {
    /// The frames fit their fields, the counts fit the progress fields, and a
    /// sending flow has sent some of the segments (one at least, if there are any).
    pub open spec fn wf(self) -> bool {
        &&& 0 < self.segment_max <= 255
        &&& self.total <= u32::MAX
        &&& self.plan.segments@.len() <= self.total
        &&& frame_fits(self.plan.file_ready)
        &&& frame_fits(self.plan.section_ready)
        &&& self.plan.last_section matches Ok(f) ==> frame_fits(f)
        &&& forall|k: int| 0 <= k < self.plan.segments@.len() ==>
            upload_segment_ok(#[trigger] self.plan.segments@[k], self.ioa, self.nof, self.segment_max as int,
                k == self.plan.segments@.len() - 1)
        &&& self.phase matches UploadPhase::Sending { sent } ==>
            sent <= self.plan.segments@.len() && (self.plan.segments@.len() > 0 ==> sent > 0)
    }

    /// The events the flow takes in its phase.
    pub open spec fn accepts(self, event: FlowEvent) -> bool {
        match self.phase {
            UploadPhase::Start => event is Begin,
            UploadPhase::FileAck | UploadPhase::SectionAck | UploadPhase::CompletionAck => event is Answer,
            UploadPhase::Sending { .. } => event is Sent,
            _ => false,
        }
    }

    /// Whether the flow takes `event` now.
    pub fn accepts_event(&self, event: &FlowEvent) -> (r: bool)
        ensures
            r == self.accepts(*event),
    {
        match self.phase {
            UploadPhase::Start => matches!(event, FlowEvent::Begin),
            UploadPhase::FileAck | UploadPhase::SectionAck | UploadPhase::CompletionAck => matches!(event, FlowEvent::Answer(_)),
            UploadPhase::Sending { .. } => matches!(event, FlowEvent::Sent),
            _ => false,
        }
    }
}

proof fn lemma_segment_count(frames: Seq<FileTransferFrame>, ioa: u32, nof: u16, max: int)
    requires
        forall|k: int| 0 <= k < frames.len() ==>
            upload_segment_ok(#[trigger] frames[k], ioa, nof, max, k == frames.len() - 1),
    ensures
        frames.len() <= segment_data(frames).len(),
    decreases frames.len(),
{
    if frames.len() > 0 {
        let rest = frames.drop_last();
        assert forall|k: int| 0 <= k < rest.len() implies
            upload_segment_ok(#[trigger] rest[k], ioa, nof, max, k == rest.len() - 1) by {
            assert(rest[k] == frames[k]);
            assert(upload_segment_ok(frames[k], ioa, nof, max, k == frames.len() - 1));
        }
        lemma_segment_count(rest, ioa, nof, max);
        assert(upload_segment_ok(frames[frames.len() - 1], ioa, nof, max, true));
    }
}

/// An upload of `file` as the one section of file `nof` at `ioa`, in segments
/// of `segment_max` bytes, not yet begun; a file larger than `max_file_size`
/// is refused.
pub fn start_upload(ioa: u32, nof: u16, file: &[u8], max_file_size: u32, segment_max: usize) -> (r: Result<UploadFlow, String>)
    requires
        0 < segment_max <= 255,
    ensures
        (file@.len() > max_file_size) <==> r is Err,
        r matches Err(m) ==> m@ == upload_too_large_message(max_file_size),
        r matches Ok(f) ==> {
            &&& f.wf()
            &&& f.phase == UploadPhase::Start
            &&& f.ioa == ioa && f.nof == nof && f.total == file@.len() && f.segment_max == segment_max
            &&& is_upload_plan(f.plan, ioa, nof, file@, segment_max as int)
        },
{
    let plan = plan_upload(ioa, nof, file, max_file_size, segment_max)?;
    proof { lemma_segment_count(plan.segments@, ioa, nof, segment_max as int); }
    Ok(UploadFlow { ioa, nof, total: file.len(), segment_max, plan, phase: UploadPhase::Start })
}

/// The flow's fields other than its phase are as they were.
pub open spec fn same_upload(a: UploadFlow, b: UploadFlow) -> bool {
    a.ioa == b.ioa && a.nof == b.nof && a.total == b.total && a.segment_max == b.segment_max && a.plan == b.plan
}

/// What closes the data of an upload: the stage of the completion
/// acknowledgement, then the last-section frame and its wait, or the refusal
/// of more segments than the frame counts.
pub open spec fn closes_upload(r: FlowStep, after: UploadPhase, plan: UploadPlan, wanted: RecordWanted) -> bool {
    &&& r.stage == Some(MasterFileTransferStage::AwaitingUploadCompletionAck)
    &&& match plan.last_section {
        Ok(frame) => sends(r, frame) && awaits(r, MasterFileTransferStage::AwaitingUploadCompletionAck, wanted)
            && after == UploadPhase::CompletionAck,
        Err(m) => r.send is None && (r.next matches FlowNext::Fail(s) && s@ == m@) && after == UploadPhase::Failed,
    }
}

fn close_upload(flow: &mut UploadFlow, progress: Option<TransferProgress>, wanted: RecordWanted) -> (r: FlowStep)
    requires
        old(flow).wf(),
        old(flow).phase matches UploadPhase::Sending { .. },
    ensures
        final(flow).wf(),
        same_upload(*final(flow), *old(flow)),
        r.progress == progress,
        closes_upload(r, final(flow).phase, old(flow).plan, wanted),
{
    let stage = MasterFileTransferStage::AwaitingUploadCompletionAck;
    match &flow.plan.last_section {
        Ok(frame) => {
            let send = send_of(frame);
            flow.phase = UploadPhase::CompletionAck;
            FlowStep { progress, stage: Some(stage), send, next: FlowNext::Await { stage, wanted } }
        },
        Err(m) => {
            let reason = m.clone();
            flow.phase = UploadPhase::Failed;
            FlowStep { progress, stage: Some(stage), send: None, next: FlowNext::Fail(reason) }
        },
    }
}

/// One step of an upload. It announces the file and waits for an
/// acknowledgement with AFQ bit 0x01, announces the section and waits for one
/// with any of AFQ 0x07, sends the segments in order (showing after each the
/// bytes sent so far), closes the section and waits for an acknowledgement
/// with AFQ bit 0x01, then shows all bytes done; any other answer ends it.
pub fn upload_step(flow: &mut UploadFlow, event: FlowEvent) -> (r: FlowStep)
    requires
        old(flow).wf(),
        old(flow).accepts(event),
    ensures
        final(flow).wf(),
        same_upload(*final(flow), *old(flow)),
        ({
            let o = *old(flow);
            let f = *final(flow);
            let n = o.plan.segments@.len();
            let wanted = RecordWanted::SectionAck { file_name: o.nof, section: FILE_TRANSFER_SINGLE_SECTION };
            match o.phase {
                UploadPhase::Start => {
                    &&& f.phase == UploadPhase::FileAck
                    &&& r.progress == Some(progress_of(Some(0), Some(o.total as u64), 0))
                    &&& r.stage == Some(MasterFileTransferStage::AwaitingUploadFileAck)
                    &&& sends(r, o.plan.file_ready)
                    &&& awaits(r, MasterFileTransferStage::AwaitingUploadFileAck, wanted)
                },
                UploadPhase::FileAck => (event matches FlowEvent::Answer(rec) && if ack_passes(rec, 0x01) {
                    &&& f.phase == UploadPhase::SectionAck
                    &&& r.progress is None
                    &&& r.stage == Some(MasterFileTransferStage::AwaitingUploadSectionAck)
                    &&& sends(r, o.plan.section_ready)
                    &&& awaits(r, MasterFileTransferStage::AwaitingUploadSectionAck, wanted)
                } else {
                    f.phase == UploadPhase::Failed && fails_with(r, ack_refusal(rec, "上传文件握手"@))
                }),
                UploadPhase::SectionAck => (event matches FlowEvent::Answer(rec) && if ack_passes(rec, 0x07) {
                    &&& r.progress is None
                    &&& r.stage == Some(MasterFileTransferStage::SendingUploadData)
                    &&& n > 0 ==> f.phase == (UploadPhase::Sending { sent: 1 }) && sends(r, o.plan.segments@[0])
                        && r.next is Continue
                    &&& n == 0 ==> f.phase == (UploadPhase::Sending { sent: 0 }) && r.send is None
                        && r.next is Continue
                } else {
                    f.phase == UploadPhase::Failed && fails_with(r, ack_refusal(rec, "上传节准备确认"@))
                }),
                UploadPhase::Sending { sent } => {
                    &&& r.progress == (if sent == 0 { None } else {
                        Some(progress_of(
                            Some(if sent * o.segment_max > o.total { o.total as u64 } else { (sent * o.segment_max) as u64 }),
                            None, sent as u32))
                    })
                    &&& sent < n ==> f.phase == (UploadPhase::Sending { sent: (sent + 1) as usize }) && r.stage is None
                        && sends(r, o.plan.segments@[sent as int]) && r.next is Continue
                    &&& sent == n ==> closes_upload(r, f.phase, o.plan, wanted)
                },
                UploadPhase::CompletionAck => (event matches FlowEvent::Answer(rec) && if ack_passes(rec, 0x01) {
                    &&& f.phase == UploadPhase::Done
                    &&& r.progress == Some(progress_of(Some(o.total as u64), Some(o.total as u64), n as u32))
                    &&& r.stage == Some(MasterFileTransferStage::Finalizing)
                    &&& r.send is None
                    &&& r.next is Done
                } else {
                    f.phase == UploadPhase::Failed && fails_with(r, ack_refusal(rec, "上传完成确认"@))
                }),
                _ => false,
            }
        }),
{
    let wanted = RecordWanted::SectionAck { file_name: flow.nof, section: FILE_TRANSFER_SINGLE_SECTION };
    let n = flow.plan.segments.len();
    match flow.phase {
        UploadPhase::Start => {
            let send = send_of(&flow.plan.file_ready);
            let stage = MasterFileTransferStage::AwaitingUploadFileAck;
            flow.phase = UploadPhase::FileAck;
            FlowStep {
                progress: Some(TransferProgress {
                    bytes_done: Some(0),
                    bytes_total: Some(flow.total as u64),
                    section: Some(FILE_TRANSFER_SINGLE_SECTION),
                    segment: Some(0),
                }),
                stage: Some(stage),
                send,
                next: FlowNext::Await { stage, wanted },
            }
        },
        UploadPhase::FileAck => {
            let rec = match event { FlowEvent::Answer(rec) => rec, _ => { return fail_step(String::new()); } };
            match ack_result(&rec, 0x01, "上传文件握手") {
                Err(m) => {
                    flow.phase = UploadPhase::Failed;
                    fail_step(m)
                },
                Ok(()) => {
                    let send = send_of(&flow.plan.section_ready);
                    let stage = MasterFileTransferStage::AwaitingUploadSectionAck;
                    flow.phase = UploadPhase::SectionAck;
                    FlowStep { progress: None, stage: Some(stage), send, next: FlowNext::Await { stage, wanted } }
                },
            }
        },
        UploadPhase::SectionAck => {
            let rec = match event { FlowEvent::Answer(rec) => rec, _ => { return fail_step(String::new()); } };
            match ack_result(&rec, 0x07, "上传节准备确认") {
                Err(m) => {
                    flow.phase = UploadPhase::Failed;
                    fail_step(m)
                },
                Ok(()) => {
                    let stage = MasterFileTransferStage::SendingUploadData;
                    if n > 0 {
                        let send = send_of(&flow.plan.segments[0]);
                        flow.phase = UploadPhase::Sending { sent: 1 };
                        FlowStep { progress: None, stage: Some(stage), send, next: FlowNext::Continue }
                    } else {
                        flow.phase = UploadPhase::Sending { sent: 0 };
                        FlowStep { progress: None, stage: Some(stage), send: None, next: FlowNext::Continue }
                    }
                },
            }
        },
        UploadPhase::Sending { sent } => {
            let progress = if sent == 0 {
                None
            } else {
                let done = upload_progress(sent as u32, flow.segment_max, flow.total);
                Some(TransferProgress {
                    bytes_done: Some(done),
                    bytes_total: None,
                    section: Some(FILE_TRANSFER_SINGLE_SECTION),
                    segment: Some(sent as u32),
                })
            };
            if sent < n {
                let send = send_of(&flow.plan.segments[sent]);
                flow.phase = UploadPhase::Sending { sent: sent + 1 };
                FlowStep { progress, stage: None, send, next: FlowNext::Continue }
            } else {
                close_upload(flow, progress, wanted)
            }
        },
        UploadPhase::CompletionAck => {
            let rec = match event { FlowEvent::Answer(rec) => rec, _ => { return fail_step(String::new()); } };
            match ack_result(&rec, 0x01, "上传完成确认") {
                Err(m) => {
                    flow.phase = UploadPhase::Failed;
                    fail_step(m)
                },
                Ok(()) => {
                    flow.phase = UploadPhase::Done;
                    let total = flow.total as u64;
                    FlowStep {
                        progress: Some(TransferProgress {
                            bytes_done: Some(total),
                            bytes_total: Some(total),
                            section: Some(FILE_TRANSFER_SINGLE_SECTION),
                            segment: Some(n as u32),
                        }),
                        stage: Some(MasterFileTransferStage::Finalizing),
                        send: None,
                        next: FlowNext::Done,
                    }
                },
            }
        },
        _ => fail_step(String::new()),
    }
}

// ---------------------------------------------------------------- download

/// Where a download stands.
#[derive(Clone, Copy, Debug, PartialEq, Eq, Structural)]
pub enum DownloadPhase {
    /// Not begun.
    Start,
    /// File selected; waiting for file ready.
    FileReady,
    /// Section called; waiting for section ready.
    SectionReady,
    /// Waiting for segments and the last section.
    Receiving,
    /// A segment is being stored.
    Appending,
    /// The last section arrived; the file is being saved.
    Saving,
    /// Downloaded and acknowledged.
    Done,
    /// Ended by a refusal.
    Failed,
}

/// A download of file `nof` at `ioa`.
#[derive(Clone, Copy, Debug)]
pub struct DownloadFlow {
    pub ioa: u32,
    pub nof: u16,
    /// The length the file-ready record announced (0 before it came).
    pub expected_length: u32,
    pub phase: DownloadPhase,
}

impl DownloadFlow {
    /// The events the flow takes in its phase.
    pub open spec fn accepts(self, event: FlowEvent) -> bool {
        match self.phase {
            DownloadPhase::Start => event is Begin,
            DownloadPhase::FileReady | DownloadPhase::SectionReady | DownloadPhase::Receiving => event is Answer,
            DownloadPhase::Appending => event is Appended,
            DownloadPhase::Saving => event is Saved,
            _ => false,
        }
    }

    /// Whether the flow takes `event` now.
    pub fn accepts_event(&self, event: &FlowEvent) -> (r: bool)
        ensures
            r == self.accepts(*event),
    {
        match self.phase {
            DownloadPhase::Start => matches!(event, FlowEvent::Begin),
            DownloadPhase::FileReady | DownloadPhase::SectionReady | DownloadPhase::Receiving => matches!(event, FlowEvent::Answer(_)),
            DownloadPhase::Appending => matches!(event, FlowEvent::Appended { .. }),
            DownloadPhase::Saving => matches!(event, FlowEvent::Saved),
            _ => false,
        }
    }
}

/// A download of file `nof` at `ioa`, not yet begun.
pub fn start_download(ioa: u32, nof: u16) -> (r: DownloadFlow)
    ensures
        r == (DownloadFlow { ioa, nof, expected_length: 0, phase: DownloadPhase::Start }),
{
    DownloadFlow { ioa, nof, expected_length: 0, phase: DownloadPhase::Start }
}

/// Why a download stops at a file-ready answer.
pub open spec fn file_ready_refusal(rec: DecodedFileTransferRecord) -> Seq<char> {
    ack_refusal(rec, "下载文件准备"@)
}

/// Why a download stops at a section-ready answer of `length` bytes, if it does.
pub open spec fn section_refusal(rec: DecodedFileTransferRecord, expected_length: u32) -> Option<Seq<char>> {
    match rec {
        DecodedFileTransferRecord::SectionReady { length, .. } =>
            if expected_length > 0 && length != expected_length {
                Some("下载节长度与文件长度不一致: file_ready="@ + decimal(expected_length as nat)
                    + " bytes, section_ready="@ + decimal(length as nat) + " bytes"@)
            } else {
                None
            },
        _ => Some(ack_refusal(rec, "请求文件节"@)),
    }
}

/// One step of a download. It selects the file (SCQ 0x03) and waits for file
/// ready, which shows the announced length; calls the section (SCQ 0x20) and
/// waits for section ready, whose length must match a nonzero announced one;
/// stores each segment and shows the bytes so far; at the last section moves to
/// finalizing and saves the file, then acknowledges the section (AFQ 0x01). A
/// refusal or an answer of another kind ends it.
pub fn download_step(flow: &mut DownloadFlow, event: FlowEvent) -> (r: FlowStep)
    requires
        old(flow).accepts(event),
    ensures
        final(flow).ioa == old(flow).ioa && final(flow).nof == old(flow).nof,
        ({
            let o = *old(flow);
            let f = *final(flow);
            let data_wanted = RecordWanted::SegmentOrLast { file_name: o.nof, section: FILE_TRANSFER_SINGLE_SECTION };
            let receiving = MasterFileTransferStage::ReceivingDownloadSection;
            match o.phase {
                DownloadPhase::Start => {
                    &&& f == (DownloadFlow { phase: DownloadPhase::FileReady, ..o })
                    &&& r.progress is None
                    &&& r.stage == Some(MasterFileTransferStage::AwaitingDownloadFileReady)
                    &&& sends(r, FileTransferFrame::SelectCall { ioa: o.ioa, nof: o.nof, qualifier: 0x03, section: 0 })
                    &&& awaits(r, MasterFileTransferStage::AwaitingDownloadFileReady, RecordWanted::FileReadyOrAck { file_name: o.nof })
                },
                DownloadPhase::FileReady => (event matches FlowEvent::Answer(rec) && match rec {
                    DecodedFileTransferRecord::FileReady { length, .. } => {
                        &&& f == (DownloadFlow { phase: DownloadPhase::SectionReady, expected_length: length, ..o })
                        &&& r.progress == Some(progress_of(Some(0), Some(length as u64), 0))
                        &&& r.stage == Some(receiving)
                        &&& sends(r, FileTransferFrame::SelectCall {
                            ioa: o.ioa, nof: o.nof, qualifier: 0x20, section: FILE_TRANSFER_SINGLE_SECTION })
                        &&& awaits(r, receiving, RecordWanted::SectionReadyOrAck { file_name: o.nof, section: FILE_TRANSFER_SINGLE_SECTION })
                    },
                    _ => f == (DownloadFlow { phase: DownloadPhase::Failed, ..o }) && fails_with(r, file_ready_refusal(rec)),
                }),
                DownloadPhase::SectionReady => (event matches FlowEvent::Answer(rec) && match section_refusal(rec, o.expected_length) {
                    None => f == (DownloadFlow { phase: DownloadPhase::Receiving, ..o }) && quiet(r) && awaits(r, receiving, data_wanted),
                    Some(m) => f == (DownloadFlow { phase: DownloadPhase::Failed, ..o }) && fails_with(r, m),
                }),
                DownloadPhase::Receiving => (event matches FlowEvent::Answer(rec) && match rec {
                    DecodedFileTransferRecord::Segment { data, .. } =>
                        f == (DownloadFlow { phase: DownloadPhase::Appending, ..o }) && quiet(r)
                            && (r.next matches FlowNext::Append(d) && d@ == data@),
                    DecodedFileTransferRecord::LastSection { .. } =>
                        f == (DownloadFlow { phase: DownloadPhase::Saving, ..o }) && r.progress is None
                            && r.stage == Some(MasterFileTransferStage::Finalizing) && r.send is None && r.next is Save,
                    _ => f == o && quiet(r) && awaits(r, receiving, data_wanted),
                }),
                DownloadPhase::Appending => (event matches FlowEvent::Appended { bytes_done, segment } && {
                    &&& f == (DownloadFlow { phase: DownloadPhase::Receiving, ..o })
                    &&& r.progress == Some(progress_of(Some(bytes_done), None, segment))
                    &&& r.stage is None && r.send is None
                    &&& awaits(r, receiving, data_wanted)
                }),
                DownloadPhase::Saving => {
                    &&& f == (DownloadFlow { phase: DownloadPhase::Done, ..o })
                    &&& r.progress is None && r.stage is None
                    &&& sends(r, FileTransferFrame::AckSection {
                        ioa: o.ioa, nof: o.nof, qualifier: 0x01, section: FILE_TRANSFER_SINGLE_SECTION })
                    &&& r.next is Done
                },
                _ => false,
            }
        }),
{
    let receiving = MasterFileTransferStage::ReceivingDownloadSection;
    let data_wanted = RecordWanted::SegmentOrLast { file_name: flow.nof, section: FILE_TRANSFER_SINGLE_SECTION };
    match flow.phase {
        DownloadPhase::Start => {
            let stage = MasterFileTransferStage::AwaitingDownloadFileReady;
            let send = send_of(&FileTransferFrame::SelectCall { ioa: flow.ioa, nof: flow.nof, qualifier: 0x03, section: 0 });
            flow.phase = DownloadPhase::FileReady;
            FlowStep { progress: None, stage: Some(stage), send, next: FlowNext::Await { stage, wanted: RecordWanted::FileReadyOrAck { file_name: flow.nof } } }
        },
        DownloadPhase::FileReady => {
            let rec = match event { FlowEvent::Answer(rec) => rec, _ => { return fail_step(String::new()); } };
            match file_ready_result(&rec) {
                Err(m) => {
                    flow.phase = DownloadPhase::Failed;
                    fail_step(m)
                },
                Ok(length) => {
                    let send = send_of(&FileTransferFrame::SelectCall {
                        ioa: flow.ioa, nof: flow.nof, qualifier: 0x20, section: FILE_TRANSFER_SINGLE_SECTION });
                    flow.phase = DownloadPhase::SectionReady;
                    flow.expected_length = length;
                    FlowStep {
                        progress: Some(TransferProgress {
                            bytes_done: Some(0),
                            bytes_total: Some(length as u64),
                            section: Some(FILE_TRANSFER_SINGLE_SECTION),
                            segment: Some(0),
                        }),
                        stage: Some(receiving),
                        send,
                        next: FlowNext::Await {
                            stage: receiving,
                            wanted: RecordWanted::SectionReadyOrAck { file_name: flow.nof, section: FILE_TRANSFER_SINGLE_SECTION },
                        },
                    }
                },
            }
        },
        DownloadPhase::SectionReady => {
            let rec = match event { FlowEvent::Answer(rec) => rec, _ => { return fail_step(String::new()); } };
            let checked = match section_ready_result(&rec) {
                Err(m) => Err(m),
                Ok(length) => check_download_section_length(flow.expected_length, length),
            };
            match checked {
                Err(m) => {
                    flow.phase = DownloadPhase::Failed;
                    fail_step(m)
                },
                Ok(()) => {
                    flow.phase = DownloadPhase::Receiving;
                    FlowStep { progress: None, stage: None, send: None, next: FlowNext::Await { stage: receiving, wanted: data_wanted } }
                },
            }
        },
        DownloadPhase::Receiving => {
            let rec = match event { FlowEvent::Answer(rec) => rec, _ => { return fail_step(String::new()); } };
            match rec {
                DecodedFileTransferRecord::Segment { data, .. } => {
                    flow.phase = DownloadPhase::Appending;
                    FlowStep { progress: None, stage: None, send: None, next: FlowNext::Append(data) }
                },
                DecodedFileTransferRecord::LastSection { .. } => {
                    flow.phase = DownloadPhase::Saving;
                    FlowStep { progress: None, stage: Some(MasterFileTransferStage::Finalizing), send: None, next: FlowNext::Save }
                },
                _ => FlowStep { progress: None, stage: None, send: None, next: FlowNext::Await { stage: receiving, wanted: data_wanted } },
            }
        },
        DownloadPhase::Appending => {
            let (bytes_done, segment) = match event {
                FlowEvent::Appended { bytes_done, segment } => (bytes_done, segment),
                _ => { return fail_step(String::new()); },
            };
            flow.phase = DownloadPhase::Receiving;
            FlowStep {
                progress: Some(TransferProgress {
                    bytes_done: Some(bytes_done),
                    bytes_total: None,
                    section: Some(FILE_TRANSFER_SINGLE_SECTION),
                    segment: Some(segment),
                }),
                stage: None,
                send: None,
                next: FlowNext::Await { stage: receiving, wanted: data_wanted },
            }
        },
        DownloadPhase::Saving => {
            let send = send_of(&FileTransferFrame::AckSection {
                ioa: flow.ioa, nof: flow.nof, qualifier: 0x01, section: FILE_TRANSFER_SINGLE_SECTION });
            flow.phase = DownloadPhase::Done;
            FlowStep { progress: None, stage: None, send, next: FlowNext::Done }
        },
        _ => fail_step(String::new()),
    }
}

} // verus!
