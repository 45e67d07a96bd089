use crate::error::{EmitKind, RelayError, RpcOp};
use vstd::prelude::*;
use crate::trace::{
    after, count, lemma_budget, lemma_clean_prefix, lemma_count_add, lemma_count_single, lemma_no_content_after_stop,
    lemma_run_len, lemma_run_split, lemma_run_two, lemma_run_unfold, run, Signal, StepMachine,
};
use vstd::string::StringExecFns;

verus! {

/// One progress item of an upload stream.
#[derive(Clone, Debug)]
pub struct UploadReply {
    pub files_uploaded: String,
    pub current_file_uploading: Option<String>,
    pub current_file_progress: Option<String>,
}

/// The progress record handed to the UI, with placeholders for absent fields.
#[derive(Clone, Debug)]
pub struct UploadProgress {
    pub files_uploaded: String,
    pub current_file_uploading: String,
    pub current_file_progress: String,
}

/// What the host observed while running an upload.
#[derive(Debug)]
pub enum UploadEvent {
    Item(UploadReply),
    StreamFailed(String),
    StreamEnded,
    StopReplied(Result<(), String>),
    EmitFailed(String),
}

#[derive(Clone, Debug)]
pub enum UploadPhase {
    Streaming,
    /// The stream failed with the held error; the stop call is out.
    Stopping(String),
    Finished,
}

/// The decision state of one upload.
#[derive(Clone, Debug)]
pub struct UploadRelay {
    pub files_uploaded: String,
    pub phase: UploadPhase,
}

/// What the host does after one event, in this order: deliver a progress
/// record, send the stop call, signal completion with the uploaded-file list,
/// and return the outcome.
#[derive(Debug)]
pub struct UploadStep {
    pub progress: Option<UploadProgress>,
    pub send_stop: bool,
    pub completed: Option<String>,
    pub outcome: Option<Result<(), RelayError>>,
}

pub struct UploadStepView {
    pub progress: Option<(Seq<char>, Seq<char>, Seq<char>)>,
    pub send_stop: bool,
    pub completed: Option<Seq<char>>,
    pub outcome: Option<Result<(), RelayError>>,
}

impl UploadStep {
    pub open spec fn view(&self) -> UploadStepView {
        UploadStepView {
            progress: match self.progress {
                Some(p) => Some((p.files_uploaded@, p.current_file_uploading@, p.current_file_progress@)),
                None => None,
            },
            send_stop: self.send_stop,
            completed: match self.completed {
                Some(f) => Some(f@),
                None => None,
            },
            outcome: self.outcome,
        }
    }
}

pub open spec fn or_placeholder(v: Option<String>, placeholder: Seq<char>) -> Seq<char> {
    match v {
        Some(s) => s@,
        None => placeholder,
    }
}

/// The progress record for one reply.
pub open spec fn progress_of(r: UploadReply) -> (Seq<char>, Seq<char>, Seq<char>) {
    (
        r.files_uploaded@,
        or_placeholder(r.current_file_uploading, "No file"@),
        or_placeholder(r.current_file_progress, "No progress"@),
    )
}

pub open spec fn upload_quiet() -> UploadStepView {
    UploadStepView { progress: None, send_stop: false, completed: None, outcome: None }
}

/// A relay that has seen no event yet.
pub open spec fn upload_fresh(s: UploadRelay) -> bool {
    s.files_uploaded@.len() == 0 && s.phase is Streaming
}

pub open spec fn upload_next(s: UploadRelay, ev: UploadEvent) -> UploadRelay {
    match s.phase {
        UploadPhase::Streaming => match ev {
            UploadEvent::Item(r) => UploadRelay { files_uploaded: r.files_uploaded, ..s },
            UploadEvent::StreamFailed(e) => UploadRelay { phase: UploadPhase::Stopping(e), ..s },
            UploadEvent::StreamEnded => UploadRelay { phase: UploadPhase::Finished, ..s },
            UploadEvent::StopReplied(_) => s,
            UploadEvent::EmitFailed(_) => UploadRelay { phase: UploadPhase::Finished, ..s },
        },
        UploadPhase::Stopping(_) => match ev {
            UploadEvent::StopReplied(_) => UploadRelay { phase: UploadPhase::Finished, ..s },
            _ => s,
        },
        UploadPhase::Finished => s,
    }
}

pub open spec fn upload_out(s: UploadRelay, ev: UploadEvent) -> UploadStepView {
    match s.phase {
        UploadPhase::Streaming => match ev {
            UploadEvent::Item(r) => UploadStepView { progress: Some(progress_of(r)), ..upload_quiet() },
            UploadEvent::StreamFailed(_) => UploadStepView { send_stop: true, ..upload_quiet() },
            UploadEvent::StreamEnded => UploadStepView {
                completed: Some(s.files_uploaded@),
                outcome: Some(Ok(())),
                ..upload_quiet()
            },
            UploadEvent::StopReplied(_) => upload_quiet(),
            UploadEvent::EmitFailed(d) => UploadStepView {
                outcome: Some(Err(RelayError::Emit(EmitKind::Message, d))),
                ..upload_quiet()
            },
        },
        UploadPhase::Stopping(e) => match ev {
            UploadEvent::StopReplied(Ok(_)) => UploadStepView {
                completed: Some(s.files_uploaded@),
                outcome: Some(Err(RelayError::Stream(e))),
                ..upload_quiet()
            },
            UploadEvent::StopReplied(Err(d)) => UploadStepView {
                completed: Some(s.files_uploaded@),
                outcome: Some(Err(RelayError::StreamNotStopped(e, RpcOp::StopUpload, d))),
                ..upload_quiet()
            },
            _ => upload_quiet(),
        },
        UploadPhase::Finished => upload_quiet(),
    }
}

/// Fills the absent fields of a reply with their placeholders.
pub fn upload_progress(r: UploadReply) -> (p: UploadProgress)
    ensures
        (p.files_uploaded@, p.current_file_uploading@, p.current_file_progress@) == progress_of(r),
{
    let current_file_uploading = match r.current_file_uploading {
        Some(c) => c,
        None => String::from_str("No file"),
    };
    let current_file_progress = match r.current_file_progress {
        Some(c) => c,
        None => String::from_str("No progress"),
    };
    UploadProgress { files_uploaded: r.files_uploaded, current_file_uploading, current_file_progress }
}

impl UploadRelay {
    /// A relay for a fresh upload, before any item.
    pub fn new() -> (r: Self)
        ensures
            upload_fresh(r),
    {
        UploadRelay { files_uploaded: String::new(), phase: UploadPhase::Streaming }
    }

    pub open spec fn view(&self) -> (Seq<char>, UploadPhase) {
        (self.files_uploaded@, self.phase)
    }

    /// Decides what to do on one event and moves to the next state.
    pub fn step(&mut self, ev: UploadEvent) -> (r: UploadStep)
        ensures
            final(self)@ == upload_next(*old(self), ev)@,
            r@ == upload_out(*old(self), ev),
    {
        let quiet = UploadStep { progress: None, send_stop: false, completed: None, outcome: None };
        match &self.phase {
            UploadPhase::Streaming => match ev {
                UploadEvent::Item(r) => {
                    self.files_uploaded = r.files_uploaded.clone();
                    UploadStep { progress: Some(upload_progress(r)), ..quiet }
                },
                UploadEvent::StreamFailed(e) => {
                    self.phase = UploadPhase::Stopping(e);
                    UploadStep { send_stop: true, ..quiet }
                },
                UploadEvent::StreamEnded => {
                    self.phase = UploadPhase::Finished;
                    UploadStep {
                        completed: Some(self.files_uploaded.clone()),
                        outcome: Some(Ok(())),
                        ..quiet
                    }
                },
                UploadEvent::StopReplied(_) => quiet,
                UploadEvent::EmitFailed(d) => {
                    self.phase = UploadPhase::Finished;
                    UploadStep { outcome: Some(Err(RelayError::Emit(EmitKind::Message, d))), ..quiet }
                },
            },
            UploadPhase::Stopping(e) => match ev {
                UploadEvent::StopReplied(res) => {
                    let outcome = match res {
                        Ok(_) => Err(RelayError::Stream(e.clone())),
                        Err(d) => Err(RelayError::StreamNotStopped(e.clone(), RpcOp::StopUpload, d)),
                    };
                    self.phase = UploadPhase::Finished;
                    UploadStep {
                        completed: Some(self.files_uploaded.clone()),
                        outcome: Some(outcome),
                        ..quiet
                    }
                },
                _ => quiet,
            },
            UploadPhase::Finished => quiet,
        }
    }
}

impl StepMachine for UploadRelay {
    type Event = UploadEvent;
    type Out = UploadStepView;

    open spec fn next(self, ev: UploadEvent) -> UploadRelay {
        upload_next(self, ev)
    }

    open spec fn out(self, ev: UploadEvent) -> UploadStepView {
        upload_out(self, ev)
    }

    open spec fn carries(v: UploadStepView, k: Signal) -> bool {
        match k {
            Signal::FirstWord => false,
            Signal::Content => v.progress is Some,
            Signal::StopCall => v.send_stop,
            Signal::Completion => v.completed is Some,
        }
    }

    open spec fn budget(self, k: Signal) -> nat {
        match k {
            Signal::StopCall => if self.phase is Streaming { 1 } else { 0 },
            Signal::Completion => if self.phase is Finished { 0 } else { 1 },
            _ => 0,
        }
    }

    open spec fn stopped(self) -> bool {
        !(self.phase is Streaming)
    }

    proof fn lemma_step_budget(self, ev: UploadEvent, k: Signal) {
    }

    proof fn lemma_step_stopped(self, ev: UploadEvent) {
    }
}

proof fn lemma_upload_items_keep_streaming(s: UploadRelay, items: Seq<UploadEvent>)
    requires
        s.phase is Streaming,
        forall|i: int| 0 <= i < items.len() ==> (#[trigger] items[i]) is Item,
    ensures
        after(s, items).phase is Streaming,
        forall|i: int| 0 <= i < items.len() ==> (#[trigger] run(s, items)[i]).progress
            == Some(progress_of(items[i]->Item_0)),
    decreases items.len(),
{
    lemma_run_len(s, items);
    if items.len() > 0 {
        let rest = items.drop_first();
        assert forall|i: int| 0 <= i < rest.len() implies (#[trigger] rest[i]) is Item by {
            assert(rest[i] == items[i + 1]);
        }
        assert(items[0] is Item);
        lemma_run_unfold(s, items);
        let s1 = upload_next(s, items[0]);
        lemma_upload_items_keep_streaming(s1, rest);
        assert forall|i: int| 0 <= i < items.len() implies (#[trigger] run(s, items)[i]).progress
            == Some(progress_of(items[i]->Item_0)) by {
            if i > 0 {
                assert(run(s, items)[i] == run(s1, rest)[i - 1]);
                assert(rest[i - 1] == items[i]);
            }
        }
    }
}

/// During an upload a stream error leads to at most one stop call and at most
/// one completion signal, whatever follows, and no progress record is
/// delivered after the step that sent the stop call.
pub proof fn lemma_upload_stream_error_bounds(s: UploadRelay, evs: Seq<UploadEvent>)
    requires
        upload_fresh(s),
    ensures
        count::<UploadRelay>(run(s, evs), Signal::StopCall) <= 1,
        count::<UploadRelay>(run(s, evs), Signal::Completion) <= 1,
        forall|i: int, j: int|
            0 <= i < j < evs.len() && (#[trigger] run(s, evs)[i]).send_stop
                ==> (#[trigger] run(s, evs)[j]).progress is None,
{
    lemma_budget(s, evs, Signal::StopCall);
    lemma_budget(s, evs, Signal::Completion);
    lemma_no_content_after_stop(s, evs);
}

/// When an upload stream fails after some items and the stop call comes back,
/// whether it succeeded or not: the progress records delivered are exactly
/// those of the items, in order; exactly one stop call is sent, on the
/// failing step; exactly one completion is signalled, on the last step, with
/// the uploaded-file list, and that step returns the stream's error, joined
/// by the stop call's error when that failed.
pub proof fn lemma_upload_stream_error_handshake(
    s: UploadRelay,
    items: Seq<UploadEvent>,
    e: String,
    reply: Result<(), String>,
)
    requires
        upload_fresh(s),
        forall|i: int| 0 <= i < items.len() ==> (#[trigger] items[i]) is Item,
    ensures
        ({
            let steps = run(s, items + seq![UploadEvent::StreamFailed(e), UploadEvent::StopReplied(reply)]);
            let k = items.len() as int;
            &&& forall|i: int| 0 <= i < k ==> (#[trigger] steps[i]).progress == Some(progress_of(items[i]->Item_0))
            &&& steps[k].progress is None && steps[k + 1].progress is None
            &&& count::<UploadRelay>(steps, Signal::StopCall) == 1
            &&& count::<UploadRelay>(steps, Signal::Completion) == 1
            &&& steps[k].send_stop
            &&& steps[k + 1].completed == Some(after(s, items).files_uploaded@)
            &&& reply is Ok ==> steps[k + 1].outcome == Some(Err::<(), RelayError>(RelayError::Stream(e)))
            &&& reply is Err ==> steps[k + 1].outcome
                == Some(Err::<(), RelayError>(RelayError::StreamNotStopped(e, RpcOp::StopUpload, reply->Err_0)))
        }),
{
    let tail = seq![UploadEvent::StreamFailed(e), UploadEvent::StopReplied(reply)];
    lemma_run_split(s, items, tail);
    lemma_upload_items_keep_streaming(s, items);
    lemma_clean_prefix(s, items);
    lemma_run_len(s, items);
    let mid = after(s, items);
    lemma_run_two(mid, tail[0], tail[1]);
    assert(tail =~= seq![tail[0], tail[1]]);
    let a = mid.out(tail[0]);
    let b = mid.next(tail[0]).out(tail[1]);
    lemma_count_single::<UploadRelay>(a, Signal::StopCall);
    lemma_count_single::<UploadRelay>(b, Signal::StopCall);
    lemma_count_single::<UploadRelay>(a, Signal::Completion);
    lemma_count_single::<UploadRelay>(b, Signal::Completion);
    lemma_count_add::<UploadRelay>(seq![a], seq![b], Signal::StopCall);
    lemma_count_add::<UploadRelay>(seq![a], seq![b], Signal::Completion);
    lemma_count_add::<UploadRelay>(run(s, items), run(mid, tail), Signal::StopCall);
    lemma_count_add::<UploadRelay>(run(s, items), run(mid, tail), Signal::Completion);
}

} // verus!
