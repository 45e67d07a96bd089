use crate::error::{EmitKind, RelayError, RpcOp};
use crate::trace::{
    after, count, lemma_budget, lemma_clean_prefix, lemma_count_add, lemma_count_single, lemma_no_content_after_stop,
    lemma_run_len, lemma_run_split, lemma_run_two, run, Signal, StepMachine,
};
use vstd::prelude::*;

verus! {

/// What a download command sends to the middleware.
#[derive(Clone, Debug)]
pub struct DownloadRequest {
    pub file_url: String,
    pub local_path: String,
    pub token_id: Option<String>,
}

pub fn download_request(file_url: String, local_path: String, token_id: Option<String>) -> (r: DownloadRequest)
    ensures
        r.file_url == file_url,
        r.local_path == local_path,
        r.token_id == token_id,
{
    DownloadRequest { file_url, local_path, token_id }
}

/// One progress item of a download stream.
#[derive(Clone, Debug)]
pub struct DownloadProgress {
    pub progress: i32,
    pub file_downloaded: String,
}

/// What the host observed while running a download.
#[derive(Debug)]
pub enum DownloadEvent {
    Item(DownloadProgress),
    /// The progress notification of the last item was delivered, or not.
    Emitted(Result<(), String>),
    StreamFailed(String),
    StreamEnded,
    /// The stop call came back.
    StopReplied(Result<(), String>),
}

#[derive(Clone, Debug)]
pub enum DownloadPhase {
    Streaming,
    /// A progress notification is out; the flag tells whether its item reported completion.
    Notifying(bool),
    /// The stream failed with the held error; the stop call is out.
    Stopping(String),
    Finished,
}

/// The decision state of one download.
#[derive(Clone, Debug)]
pub struct DownloadRelay {
    pub file_url: String,
    pub last_file: String,
    pub phase: DownloadPhase,
}

/// What the host does after one event, in this order: deliver a progress
/// notification (source URL and percent), send the stop call, signal
/// completion, and return the outcome if there is one.
///
/// The middleware has a single stop call for file transfers, so the host
/// answers `send_stop` with the transfer stop (`stop_add_files`), the same
/// call that a user's cancel of a transfer makes.
#[derive(Debug)]
pub struct DownloadStep {
    pub notify: Option<(String, i32)>,
    pub send_stop: bool,
    pub completed: bool,
    pub outcome: Option<Result<String, RelayError>>,
}

/// A `DownloadStep` with the URL as characters.
pub struct DownloadStepView {
    pub notify: Option<(Seq<char>, i32)>,
    pub send_stop: bool,
    pub completed: bool,
    pub outcome: Option<Result<String, RelayError>>,
}

impl DownloadStep {
    pub open spec fn view(&self) -> DownloadStepView {
        DownloadStepView {
            notify: match self.notify {
                Some((u, p)) => Some((u@, p)),
                None => None,
            },
            send_stop: self.send_stop,
            completed: self.completed,
            outcome: self.outcome,
        }
    }
}

pub open spec fn download_quiet() -> DownloadStepView {
    DownloadStepView { notify: None, send_stop: false, completed: false, outcome: None }
}

/// A relay that has seen no event yet.
pub open spec fn download_fresh(s: DownloadRelay) -> bool {
    s.phase is Streaming
}

pub open spec fn download_next(s: DownloadRelay, ev: DownloadEvent) -> DownloadRelay {
    match s.phase {
        DownloadPhase::Streaming => match ev {
            DownloadEvent::Item(p) => DownloadRelay {
                last_file: p.file_downloaded,
                phase: DownloadPhase::Notifying(p.progress == 100),
                ..s
            },
            DownloadEvent::StreamFailed(e) => DownloadRelay { phase: DownloadPhase::Stopping(e), ..s },
            DownloadEvent::StreamEnded => DownloadRelay { phase: DownloadPhase::Finished, ..s },
            _ => s,
        },
        DownloadPhase::Notifying(done) => match ev {
            DownloadEvent::Emitted(Ok(_)) => DownloadRelay {
                phase: if done { DownloadPhase::Finished } else { DownloadPhase::Streaming },
                ..s
            },
            DownloadEvent::Emitted(Err(_)) => DownloadRelay { phase: DownloadPhase::Finished, ..s },
            _ => s,
        },
        DownloadPhase::Stopping(_) => match ev {
            DownloadEvent::StopReplied(_) => DownloadRelay { phase: DownloadPhase::Finished, ..s },
            _ => s,
        },
        DownloadPhase::Finished => s,
    }
}

/// What the host does on `ev`: a download succeeds with the file name of the
/// first item that reports 100 percent, fails with the last file name seen
/// when the stream ends before that, and on a stream error sends the stop
/// call, then signals completion and returns the stream's error.
pub open spec fn download_out(s: DownloadRelay, ev: DownloadEvent) -> DownloadStepView {
    match s.phase {
        DownloadPhase::Streaming => match ev {
            DownloadEvent::Item(p) => DownloadStepView { notify: Some((s.file_url@, p.progress)), ..download_quiet() },
            DownloadEvent::StreamFailed(_) => DownloadStepView { send_stop: true, ..download_quiet() },
            DownloadEvent::StreamEnded => DownloadStepView {
                outcome: Some(Err(RelayError::Incomplete(s.last_file))),
                ..download_quiet()
            },
            _ => download_quiet(),
        },
        DownloadPhase::Notifying(done) => match ev {
            DownloadEvent::Emitted(Ok(_)) => if done {
                DownloadStepView { outcome: Some(Ok(s.last_file)), ..download_quiet() }
            } else {
                download_quiet()
            },
            DownloadEvent::Emitted(Err(d)) => DownloadStepView {
                outcome: Some(Err(RelayError::Emit(EmitKind::Progress, d))),
                ..download_quiet()
            },
            _ => download_quiet(),
        },
        DownloadPhase::Stopping(e) => match ev {
            DownloadEvent::StopReplied(Ok(_)) => DownloadStepView {
                completed: true,
                outcome: Some(Err(RelayError::Stream(e))),
                ..download_quiet()
            },
            DownloadEvent::StopReplied(Err(d)) => DownloadStepView {
                completed: true,
                outcome: Some(Err(RelayError::StreamNotStopped(e, RpcOp::StopDownload, d))),
                ..download_quiet()
            },
            _ => download_quiet(),
        },
        DownloadPhase::Finished => download_quiet(),
    }
}

impl DownloadRelay {
    /// A relay for a download of `file_url`, before any item.
    pub fn new(file_url: String) -> (r: Self)
        ensures
            r.file_url == file_url,
            r.last_file@.len() == 0,
            download_fresh(r),
    {
        DownloadRelay { file_url, last_file: String::new(), phase: DownloadPhase::Streaming }
    }

    /// Decides what to do on one event and moves to the next state.
    pub fn step(&mut self, ev: DownloadEvent) -> (r: DownloadStep)
        ensures
            final(self)@ == download_next(*old(self), ev)@,
            r@ == download_out(*old(self), ev),
    {
        let quiet = DownloadStep { notify: None, send_stop: false, completed: false, outcome: None };
        match &self.phase {
            DownloadPhase::Streaming => match ev {
                DownloadEvent::Item(p) => {
                    self.last_file = p.file_downloaded;
                    self.phase = DownloadPhase::Notifying(p.progress == 100);
                    DownloadStep { notify: Some((self.file_url.clone(), p.progress)), ..quiet }
                },
                DownloadEvent::StreamFailed(e) => {
                    self.phase = DownloadPhase::Stopping(e);
                    DownloadStep { send_stop: true, ..quiet }
                },
                DownloadEvent::StreamEnded => {
                    self.phase = DownloadPhase::Finished;
                    DownloadStep { outcome: Some(Err(RelayError::Incomplete(self.last_file.clone()))), ..quiet }
                },
                _ => quiet,
            },
            DownloadPhase::Notifying(done) => match ev {
                DownloadEvent::Emitted(Ok(_)) => {
                    if *done {
                        self.phase = DownloadPhase::Finished;
                        DownloadStep { outcome: Some(Ok(self.last_file.clone())), ..quiet }
                    } else {
                        self.phase = DownloadPhase::Streaming;
                        quiet
                    }
                },
                DownloadEvent::Emitted(Err(d)) => {
                    self.phase = DownloadPhase::Finished;
                    DownloadStep { outcome: Some(Err(RelayError::Emit(EmitKind::Progress, d))), ..quiet }
                },
                _ => quiet,
            },
            DownloadPhase::Stopping(e) => match ev {
                DownloadEvent::StopReplied(res) => {
                    let outcome = match res {
                        Ok(_) => Err(RelayError::Stream(e.clone())),
                        Err(d) => Err(RelayError::StreamNotStopped(e.clone(), RpcOp::StopDownload, d)),
                    };
                    self.phase = DownloadPhase::Finished;
                    DownloadStep { completed: true, outcome: Some(outcome), ..quiet }
                },
                _ => quiet,
            },
            DownloadPhase::Finished => quiet,
        }
    }

    pub open spec fn view(&self) -> (Seq<char>, Seq<char>, DownloadPhase) {
        (self.file_url@, self.last_file@, self.phase)
    }
}

impl StepMachine for DownloadRelay {
    type Event = DownloadEvent;
    type Out = DownloadStepView;

    open spec fn next(self, ev: DownloadEvent) -> DownloadRelay {
        download_next(self, ev)
    }

    open spec fn out(self, ev: DownloadEvent) -> DownloadStepView {
        download_out(self, ev)
    }

    open spec fn carries(v: DownloadStepView, k: Signal) -> bool {
        match k {
            Signal::FirstWord => false,
            Signal::Content => v.notify is Some,
            Signal::StopCall => v.send_stop,
            Signal::Completion => v.completed,
        }
    }

    open spec fn budget(self, k: Signal) -> nat {
        match k {
            Signal::StopCall => if self.phase is Streaming || self.phase is Notifying { 1 } else { 0 },
            Signal::Completion => if self.phase is Finished { 0 } else { 1 },
            _ => 0,
        }
    }

    open spec fn stopped(self) -> bool {
        self.phase is Stopping || self.phase is Finished
    }

    proof fn lemma_step_budget(self, ev: DownloadEvent, k: Signal) {
    }

    proof fn lemma_step_stopped(self, ev: DownloadEvent) {
    }
}

/// An item of a download that does not yet report completion, followed by
/// the successful delivery of its progress notification.
pub open spec fn partial_item(p: DownloadProgress) -> Seq<DownloadEvent> {
    seq![DownloadEvent::Item(p), DownloadEvent::Emitted(Ok(()))]
}

/// The events of a run of partial items.
pub open spec fn partial_run(ps: Seq<DownloadProgress>) -> Seq<DownloadEvent>
    decreases ps.len(),
{
    if ps.len() == 0 {
        Seq::empty()
    } else {
        partial_item(ps[0]) + partial_run(ps.drop_first())
    }
}

proof fn lemma_partial_keep_streaming(s: DownloadRelay, ps: Seq<DownloadProgress>)
    requires
        s.phase is Streaming,
        forall|i: int| 0 <= i < ps.len() ==> (#[trigger] ps[i]).progress != 100,
    ensures
        after(s, partial_run(ps)).phase is Streaming,
        after(s, partial_run(ps)).file_url == s.file_url,
        run(s, partial_run(ps)).len() == 2 * ps.len(),
        forall|i: int| 0 <= i < ps.len() ==> (#[trigger] run(s, partial_run(ps))[2 * i]).notify
            == Some((s.file_url@, ps[i].progress)),
        forall|i: int| 0 <= i < ps.len() ==> (#[trigger] run(s, partial_run(ps))[2 * i + 1]).notify is None,
        forall|i: int| 0 <= i < ps.len() ==> (#[trigger] run(s, partial_run(ps))[2 * i + 1]).outcome is None,
    decreases ps.len(),
{
    let evs = partial_run(ps);
    lemma_run_len(s, evs);
    if ps.len() > 0 {
        let rest = ps.drop_first();
        assert forall|i: int| 0 <= i < rest.len() implies (#[trigger] rest[i]).progress != 100 by {
            assert(rest[i] == ps[i + 1]);
        }
        let head = partial_item(ps[0]);
        lemma_run_split(s, head, partial_run(rest));
        lemma_run_two(s, head[0], head[1]);
        assert(head =~= seq![head[0], head[1]]);
        let s2 = after(s, head);
        let h1 = head.drop_first();
        assert(h1 =~= seq![head[1]]);
        assert(h1.drop_first() =~= Seq::<DownloadEvent>::empty());
        let s1 = s.next(head[0]);
        assert(after(s1.next(h1[0]), h1.drop_first()) == s1.next(h1[0]));
        assert(after(s1, h1) == s1.next(head[1]));
        assert(s2 == s.next(head[0]).next(head[1]));
        lemma_partial_keep_streaming(s2, rest);
        assert(after(s, evs) == after(s2, partial_run(rest))) by {
            lemma_after_split(s, head, partial_run(rest));
        }
        let r2 = run(s2, partial_run(rest));
        assert forall|i: int| 0 <= i < ps.len() implies (#[trigger] run(s, evs)[2 * i]).notify
            == Some((s.file_url@, ps[i].progress)) by {
            if i > 0 {
                assert(run(s, evs)[2 * i] == r2[2 * (i - 1)]);
                assert(rest[i - 1] == ps[i]);
            }
        }
        assert forall|i: int| 0 <= i < ps.len() implies (#[trigger] run(s, evs)[2 * i + 1]).notify is None by {
            if i > 0 {
                assert(run(s, evs)[2 * i + 1] == r2[2 * (i - 1) + 1]);
            }
        }
        assert forall|i: int| 0 <= i < ps.len() implies (#[trigger] run(s, evs)[2 * i + 1]).outcome is None by {
            if i > 0 {
                assert(run(s, evs)[2 * i + 1] == r2[2 * (i - 1) + 1]);
            }
        }
    }
}

proof fn lemma_after_split(s: DownloadRelay, a: Seq<DownloadEvent>, b: Seq<DownloadEvent>)
    ensures
        after(s, a + b) == after(after(s, a), b),
    decreases a.len(),
{
    if a.len() == 0 {
        assert(a + b =~= b);
    } else {
        assert((a + b).drop_first() =~= a.drop_first() + b);
        assert((a + b)[0] == a[0]);
        lemma_after_split(s.next(a[0]), a.drop_first(), b);
    }
}

/// During a download a stream error leads to at most one stop call and at
/// most one completion signal, whatever follows, and no progress
/// notification is delivered after the step that sent the stop call.
pub proof fn lemma_download_stream_error_bounds(s: DownloadRelay, evs: Seq<DownloadEvent>)
    requires
        download_fresh(s),
    ensures
        count::<DownloadRelay>(run(s, evs), Signal::StopCall) <= 1,
        count::<DownloadRelay>(run(s, evs), Signal::Completion) <= 1,
        forall|i: int, j: int|
            0 <= i < j < evs.len() && (#[trigger] run(s, evs)[i]).send_stop
                ==> (#[trigger] run(s, evs)[j]).notify is None,
{
    lemma_budget(s, evs, Signal::StopCall);
    lemma_budget(s, evs, Signal::Completion);
    lemma_no_content_after_stop(s, evs);
}

/// When a download stream fails after items that did not report completion,
/// each notified, and the stop call comes back, whether it succeeded or not:
/// the progress notifications are exactly those of the items, in order;
/// exactly one stop call is sent, on the failing step; exactly one completion
/// is signalled, on the last step, which returns the stream's error, joined
/// by the stop call's error when that failed.
pub proof fn lemma_download_stream_error_handshake(
    s: DownloadRelay,
    ps: Seq<DownloadProgress>,
    e: String,
    reply: Result<(), String>,
)
    requires
        download_fresh(s),
        forall|i: int| 0 <= i < ps.len() ==> (#[trigger] ps[i]).progress != 100,
    ensures
        ({
            let steps = run(s, partial_run(ps) + seq![DownloadEvent::StreamFailed(e), DownloadEvent::StopReplied(reply)]);
            let k = 2 * ps.len() as int;
            &&& forall|i: int| 0 <= i < ps.len() ==> (#[trigger] steps[2 * i]).notify
                == Some((s.file_url@, ps[i].progress))
            &&& forall|i: int| 0 <= i < ps.len() ==> (#[trigger] steps[2 * i + 1]).notify is None
            &&& steps[k].notify is None && steps[k + 1].notify is None
            &&& count::<DownloadRelay>(steps, Signal::StopCall) == 1
            &&& count::<DownloadRelay>(steps, Signal::Completion) == 1
            &&& steps[k].send_stop
            &&& steps[k + 1].completed
            &&& reply is Ok ==> steps[k + 1].outcome == Some(Err::<String, RelayError>(RelayError::Stream(e)))
            &&& reply is Err ==> steps[k + 1].outcome
                == Some(Err::<String, RelayError>(RelayError::StreamNotStopped(e, RpcOp::StopDownload, reply->Err_0)))
        }),
{
    let pre = partial_run(ps);
    let tail = seq![DownloadEvent::StreamFailed(e), DownloadEvent::StopReplied(reply)];
    lemma_run_split(s, pre, tail);
    lemma_partial_keep_streaming(s, ps);
    lemma_clean_prefix(s, pre);
    lemma_run_len(s, pre);
    let mid = after(s, pre);
    lemma_run_two(mid, tail[0], tail[1]);
    assert(tail =~= seq![tail[0], tail[1]]);
    let a = mid.out(tail[0]);
    let b = mid.next(tail[0]).out(tail[1]);
    let steps = run(s, pre + tail);
    assert forall|i: int| 0 <= i < ps.len() implies (#[trigger] steps[2 * i]).notify
        == Some((s.file_url@, ps[i].progress)) by {
        assert(steps[2 * i] == run(s, pre)[2 * i]);
    }
    assert forall|i: int| 0 <= i < ps.len() implies (#[trigger] steps[2 * i + 1]).notify is None by {
        assert(steps[2 * i + 1] == run(s, pre)[2 * i + 1]);
    }
    lemma_count_single::<DownloadRelay>(a, Signal::StopCall);
    lemma_count_single::<DownloadRelay>(b, Signal::StopCall);
    lemma_count_single::<DownloadRelay>(a, Signal::Completion);
    lemma_count_single::<DownloadRelay>(b, Signal::Completion);
    lemma_count_add::<DownloadRelay>(seq![a], seq![b], Signal::StopCall);
    lemma_count_add::<DownloadRelay>(seq![a], seq![b], Signal::Completion);
    lemma_count_add::<DownloadRelay>(run(s, pre), run(mid, tail), Signal::StopCall);
    lemma_count_add::<DownloadRelay>(run(s, pre), run(mid, tail), Signal::Completion);
}

} // verus!
