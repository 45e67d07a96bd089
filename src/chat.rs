use crate::error::{EmitKind, RelayError, RpcOp};
use crate::payload::{json_str_field, message_text, view_decoded};
use crate::trace::{
    after, count, lemma_budget, lemma_clean_prefix, lemma_count_add, lemma_count_single, lemma_no_content_after_stop,
    lemma_run_len, lemma_run_split, lemma_run_two, lemma_run_unfold, run, Signal, StepMachine,
};
use vstd::prelude::*;

verus! {

/// One turn of a conversation, as the front-end sends it.
#[derive(Clone, Debug)]
pub struct ChatMessage {
    pub role: String,
    pub content: String,
}

/// Everything one chat invocation sends to the middleware.
#[derive(Clone, Debug)]
pub struct ChatRequest {
    pub name: String,
    pub prompt: String,
    pub history: Vec<ChatMessage>,
    pub session_id: i32,
    pub attached_files: Option<String>,
    pub query_type: Option<String>,
}

/// Builds the chat request; the history keeps its order.
pub fn chat_request(
    name: String,
    prompt: String,
    conversation_history: Vec<ChatMessage>,
    sid: i32,
    query: Option<String>,
    files: Option<String>,
) -> (r: ChatRequest)
    ensures
        r.name == name,
        r.prompt == prompt,
        r.history@ == conversation_history@,
        r.session_id == sid,
        r.attached_files == files,
        r.query_type == query,
{
    ChatRequest {
        name,
        prompt,
        history: conversation_history,
        session_id: sid,
        attached_files: files,
        query_type: query,
    }
}

/// What the host observed while running a chat invocation.
#[derive(Debug)]
pub enum ChatEvent {
    /// A stream item arrived; it holds the item's JSON payload.
    Item(String),
    /// The stream reported an error.
    StreamFailed(String),
    /// The stream ended without error.
    StreamEnded,
    /// The stop call came back.
    StopReplied(Result<(), String>),
    /// Delivering a "new content" notification failed.
    EmitFailed(String),
}

/// Where a chat invocation stands.
#[derive(Clone, Debug)]
pub enum ChatPhase {
    Streaming,
    /// The stream failed with the held error; the stop call is out.
    Stopping(String),
    Finished,
}

/// The decision state of one chat invocation.
#[derive(Clone, Debug)]
pub struct ChatRelay {
    pub first_seen: bool,
    pub phase: ChatPhase,
}

/// What the host does after one event, in this order: signal the first
/// token, deliver content, send the stop call, signal completion, and return
/// the outcome to the UI caller.
#[derive(Debug)]
pub struct ChatStep {
    pub first_word: bool,
    pub message: Option<String>,
    pub send_stop: bool,
    pub completed: bool,
    pub outcome: Option<Result<(), RelayError>>,
}

/// A `ChatStep` with its content as a sequence of characters.
pub struct ChatStepView {
    pub first_word: bool,
    pub message: Option<Seq<char>>,
    pub send_stop: bool,
    pub completed: bool,
    pub outcome: Option<Result<(), RelayError>>,
}

impl ChatStep {
    pub open spec fn view(&self) -> ChatStepView {
        ChatStepView {
            first_word: self.first_word,
            message: match self.message {
                Some(t) => Some(t@),
                None => None,
            },
            send_stop: self.send_stop,
            completed: self.completed,
            outcome: self.outcome,
        }
    }
}

pub open spec fn quiet() -> ChatStepView {
    ChatStepView { first_word: false, message: None, send_stop: false, completed: false, outcome: None }
}

pub open spec fn chat_fresh() -> ChatRelay {
    ChatRelay { first_seen: false, phase: ChatPhase::Streaming }
}

/// The state after a stream item whose "message" field decoded to `d`.
pub open spec fn item_next(s: ChatRelay, d: Option<Option<Seq<char>>>) -> ChatRelay {
    match s.phase {
        ChatPhase::Streaming => match d {
            None => ChatRelay { first_seen: true, phase: ChatPhase::Finished },
            Some(_) => ChatRelay { first_seen: true, phase: ChatPhase::Streaming },
        },
        _ => s,
    }
}

/// What the host does on a stream item whose "message" field decoded to `d`:
/// the first item signals the first token, text is delivered, and a payload
/// that does not decode ends the invocation.
pub open spec fn item_out(s: ChatRelay, d: Option<Option<Seq<char>>>) -> ChatStepView {
    match s.phase {
        ChatPhase::Streaming => match d {
            None => ChatStepView {
                first_word: !s.first_seen,
                outcome: Some(Err(RelayError::Decode)),
                ..quiet()
            },
            Some(t) => ChatStepView { first_word: !s.first_seen, message: t, ..quiet() },
        },
        _ => quiet(),
    }
}

/// The state after `ev`.
pub open spec fn chat_next(s: ChatRelay, ev: ChatEvent) -> ChatRelay {
    match s.phase {
        ChatPhase::Streaming => match ev {
            ChatEvent::Item(p) => item_next(s, json_str_field(p@, "message"@)),
            ChatEvent::StreamFailed(e) => ChatRelay { phase: ChatPhase::Stopping(e), ..s },
            ChatEvent::StreamEnded => ChatRelay { phase: ChatPhase::Finished, ..s },
            ChatEvent::StopReplied(_) => s,
            ChatEvent::EmitFailed(_) => ChatRelay { phase: ChatPhase::Finished, ..s },
        },
        ChatPhase::Stopping(_) => match ev {
            ChatEvent::StopReplied(_) => ChatRelay { phase: ChatPhase::Finished, ..s },
            _ => s,
        },
        ChatPhase::Finished => s,
    }
}

/// What the host does on `ev`.
pub open spec fn chat_out(s: ChatRelay, ev: ChatEvent) -> ChatStepView {
    match s.phase {
        ChatPhase::Streaming => match ev {
            ChatEvent::Item(p) => item_out(s, json_str_field(p@, "message"@)),
            ChatEvent::StreamFailed(_) => ChatStepView { send_stop: true, ..quiet() },
            ChatEvent::StreamEnded => ChatStepView {
                completed: true,
                outcome: Some(Ok(())),
                ..quiet()
            },
            ChatEvent::StopReplied(_) => quiet(),
            ChatEvent::EmitFailed(d) => ChatStepView {
                outcome: Some(Err(RelayError::Emit(EmitKind::Message, d))),
                ..quiet()
            },
        },
        ChatPhase::Stopping(e) => match ev {
            ChatEvent::StopReplied(Ok(_)) => ChatStepView {
                completed: true,
                outcome: Some(Err(RelayError::Stream(e))),
                ..quiet()
            },
            ChatEvent::StopReplied(Err(d)) => ChatStepView {
                completed: true,
                outcome: Some(Err(RelayError::StreamNotStopped(e, RpcOp::StopChat, d))),
                ..quiet()
            },
            _ => quiet(),
        },
        ChatPhase::Finished => quiet(),
    }
}

impl ChatRelay {
    /// A relay for a fresh invocation, before any item.
    pub fn new() -> (r: Self)
        ensures
            r == chat_fresh(),
    {
        ChatRelay { first_seen: false, phase: ChatPhase::Streaming }
    }

    /// Decides what to do on a stream item whose "message" field decoded to
    /// `decoded`, and moves to the next state.
    pub fn take_item(&mut self, decoded: Option<Option<String>>) -> (r: ChatStep)
        ensures
            *final(self) == item_next(*old(self), view_decoded(decoded)),
            r@ == item_out(*old(self), view_decoded(decoded)),
    {
        match self.phase {
            ChatPhase::Streaming => {
                let first_word = !self.first_seen;
                self.first_seen = true;
                match decoded {
                    None => {
                        self.phase = ChatPhase::Finished;
                        ChatStep {
                            first_word,
                            message: None,
                            send_stop: false,
                            completed: false,
                            outcome: Some(Err(RelayError::Decode)),
                        }
                    },
                    Some(t) => ChatStep { first_word, message: t, send_stop: false, completed: false, outcome: None },
                }
            },
            _ => ChatStep { first_word: false, message: None, send_stop: false, completed: false, outcome: None },
        }
    }

    /// Decides what to do on one event and moves to the next state.
    pub fn step(&mut self, ev: ChatEvent) -> (r: ChatStep)
        ensures
            *final(self) == chat_next(*old(self), ev),
            r@ == chat_out(*old(self), ev),
    {
        let quiet = ChatStep {
            first_word: false,
            message: None,
            send_stop: false,
            completed: false,
            outcome: None,
        };
        match &self.phase {
            ChatPhase::Streaming => match ev {
                ChatEvent::Item(p) => self.take_item(message_text(p.as_str())),
                ChatEvent::StreamFailed(e) => {
                    self.phase = ChatPhase::Stopping(e);
                    ChatStep { send_stop: true, ..quiet }
                },
                ChatEvent::StreamEnded => {
                    self.phase = ChatPhase::Finished;
                    ChatStep { completed: true, outcome: Some(Ok(())), ..quiet }
                },
                ChatEvent::StopReplied(_) => quiet,
                ChatEvent::EmitFailed(d) => {
                    self.phase = ChatPhase::Finished;
                    ChatStep {
                        outcome: Some(Err(RelayError::Emit(EmitKind::Message, d))),
                        ..quiet
                    }
                },
            },
            ChatPhase::Stopping(e) => match ev {
                ChatEvent::StopReplied(res) => {
                    let outcome = match res {
                        Ok(_) => Err(RelayError::Stream(e.clone())),
                        Err(d) => Err(RelayError::StreamNotStopped(e.clone(), RpcOp::StopChat, d)),
                    };
                    self.phase = ChatPhase::Finished;
                    ChatStep { completed: true, outcome: Some(outcome), ..quiet }
                },
                _ => quiet,
            },
            ChatPhase::Finished => quiet,
        }
    }
}

impl StepMachine for ChatRelay {
    type Event = ChatEvent;
    type Out = ChatStepView;

    open spec fn next(self, ev: ChatEvent) -> ChatRelay {
        chat_next(self, ev)
    }

    open spec fn out(self, ev: ChatEvent) -> ChatStepView {
        chat_out(self, ev)
    }

    open spec fn carries(v: ChatStepView, k: Signal) -> bool {
        match k {
            Signal::FirstWord => v.first_word,
            Signal::Content => v.message is Some,
            Signal::StopCall => v.send_stop,
            Signal::Completion => v.completed,
        }
    }

    open spec fn budget(self, k: Signal) -> nat {
        match k {
            Signal::FirstWord => if self.phase is Streaming && !self.first_seen { 1 } else { 0 },
            Signal::StopCall => if self.phase is Streaming { 1 } else { 0 },
            Signal::Completion => if self.phase is Finished { 0 } else { 1 },
            Signal::Content => 0,
        }
    }

    open spec fn stopped(self) -> bool {
        !(self.phase is Streaming)
    }

    proof fn lemma_step_budget(self, ev: ChatEvent, k: Signal) {
    }

    proof fn lemma_step_stopped(self, ev: ChatEvent) {
    }
}

/// Whether `ev` is a stream item whose payload decodes.
pub open spec fn decodable_item(ev: ChatEvent) -> bool {
    ev is Item && json_str_field(ev->Item_0@, "message"@) is Some
}

/// The text that a decodable item delivers, if any.
pub open spec fn item_text(ev: ChatEvent) -> Option<Seq<char>> {
    json_str_field(ev->Item_0@, "message"@)->Some_0
}

proof fn lemma_first_word_needs_item(s: ChatRelay, evs: Seq<ChatEvent>)
    ensures
        forall|i: int| 0 <= i < evs.len() && (#[trigger] run(s, evs)[i]).first_word ==> evs[i] is Item,
    decreases evs.len(),
{
    lemma_run_len(s, evs);
    if evs.len() > 0 {
        lemma_run_unfold(s, evs);
        let rest = evs.drop_first();
        lemma_first_word_needs_item(chat_next(s, evs[0]), rest);
        assert forall|i: int| 0 <= i < evs.len() && (#[trigger] run(s, evs)[i]).first_word implies evs[i] is Item by {
            if i > 0 {
                assert(run(s, evs)[i] == run(chat_next(s, evs[0]), rest)[i - 1]);
                assert(rest[i - 1] == evs[i]);
            }
        }
    }
}

proof fn lemma_items_keep_streaming(s: ChatRelay, items: Seq<ChatEvent>)
    requires
        s.phase is Streaming,
        forall|i: int| 0 <= i < items.len() ==> decodable_item(#[trigger] items[i]),
    ensures
        after(s, items).phase is Streaming,
        items.len() > 0 ==> after(s, items).first_seen,
        items.len() == 0 ==> after(s, items) == s,
        items.len() > 0 ==> count::<ChatRelay>(run(s, items), Signal::FirstWord) == s.budget(Signal::FirstWord),
        items.len() == 0 ==> count::<ChatRelay>(run(s, items), Signal::FirstWord) == 0,
        forall|i: int| 0 <= i < items.len() ==> (#[trigger] run(s, items)[i]).message == item_text(items[i]),
    decreases items.len(),
{
    lemma_run_len(s, items);
    if items.len() > 0 {
        let rest = items.drop_first();
        assert forall|i: int| 0 <= i < rest.len() implies decodable_item(#[trigger] rest[i]) by {
            assert(rest[i] == items[i + 1]);
        }
        assert(decodable_item(items[0]));
        lemma_run_unfold(s, items);
        let s1 = chat_next(s, items[0]);
        lemma_items_keep_streaming(s1, rest);
        assert forall|i: int| 0 <= i < items.len() implies (#[trigger] run(s, items)[i]).message == item_text(items[i]) by {
            if i > 0 {
                assert(run(s, items)[i] == run(s1, rest)[i - 1]);
                assert(rest[i - 1] == items[i]);
            }
        }
    }
}

/// Within one chat invocation the "first token" signal fires at most once,
/// and only on a step that handled a received stream item.
pub proof fn lemma_first_word_at_most_once(evs: Seq<ChatEvent>)
    ensures
        count::<ChatRelay>(run(chat_fresh(), evs), Signal::FirstWord) <= 1,
        forall|i: int|
            0 <= i < evs.len() && (#[trigger] run(chat_fresh(), evs)[i]).first_word ==> evs[i] is Item,
{
    lemma_budget(chat_fresh(), evs, Signal::FirstWord);
    lemma_first_word_needs_item(chat_fresh(), evs);
}

/// A stream of decodable items followed by its end fires the "first token"
/// signal exactly once, on the first step, when it held at least one item,
/// and never when it was empty; completion is signalled once, on the last
/// step, which succeeds.
pub proof fn lemma_first_word_on_clean_stream(items: Seq<ChatEvent>)
    requires
        forall|i: int| 0 <= i < items.len() ==> decodable_item(#[trigger] items[i]),
    ensures
        items.len() > 0 ==> count::<ChatRelay>(
            run(chat_fresh(), items.push(ChatEvent::StreamEnded)),
            Signal::FirstWord,
        ) == 1,
        items.len() > 0 ==> run(chat_fresh(), items.push(ChatEvent::StreamEnded))[0].first_word,
        items.len() == 0 ==> count::<ChatRelay>(
            run(chat_fresh(), items.push(ChatEvent::StreamEnded)),
            Signal::FirstWord,
        ) == 0,
        count::<ChatRelay>(run(chat_fresh(), items.push(ChatEvent::StreamEnded)), Signal::Completion) == 1,
        run(chat_fresh(), items.push(ChatEvent::StreamEnded))[items.len() as int].completed,
        run(chat_fresh(), items.push(ChatEvent::StreamEnded))[items.len() as int].outcome
            == Some(Ok::<(), RelayError>(())),
{
    let s = chat_fresh();
    let tail = seq![ChatEvent::StreamEnded];
    assert(items.push(ChatEvent::StreamEnded) =~= items + tail);
    lemma_run_split(s, items, tail);
    lemma_items_keep_streaming(s, items);
    lemma_clean_prefix(s, items);
    lemma_run_len(s, items);
    let mid = after(s, items);
    lemma_run_unfold(mid, tail);
    assert(tail.drop_first() =~= Seq::<ChatEvent>::empty());
    let out = chat_out(mid, ChatEvent::StreamEnded);
    assert(run(mid, tail) =~= seq![out]);
    lemma_count_single::<ChatRelay>(out, Signal::FirstWord);
    lemma_count_single::<ChatRelay>(out, Signal::Completion);
    lemma_count_add::<ChatRelay>(run(s, items), seq![out], Signal::FirstWord);
    lemma_count_add::<ChatRelay>(run(s, items), seq![out], Signal::Completion);
    if items.len() > 0 {
        lemma_run_unfold(s, items);
    }
}

/// A stream error leads to at most one stop call and at most one completion
/// signal, whatever follows, and no content is delivered after the step that
/// sent the stop call.
pub proof fn lemma_stream_error_bounds(evs: Seq<ChatEvent>)
    ensures
        count::<ChatRelay>(run(chat_fresh(), evs), Signal::StopCall) <= 1,
        count::<ChatRelay>(run(chat_fresh(), evs), Signal::Completion) <= 1,
        forall|i: int, j: int|
            0 <= i < j < evs.len() && (#[trigger] run(chat_fresh(), evs)[i]).send_stop
                ==> (#[trigger] run(chat_fresh(), evs)[j]).message is None,
{
    lemma_budget(chat_fresh(), evs, Signal::StopCall);
    lemma_budget(chat_fresh(), evs, Signal::Completion);
    lemma_no_content_after_stop(chat_fresh(), evs);
}

/// When the stream fails after some decodable items and the stop call comes
/// back, whether it succeeded or not: the content delivered is exactly the
/// items' texts, in order; exactly one stop call is sent, on the failing
/// step; exactly one completion is signalled, on the last step, which
/// returns the stream's error, joined by the stop call's error when that
/// failed.
pub proof fn lemma_stream_error_handshake(items: Seq<ChatEvent>, e: String, reply: Result<(), String>)
    requires
        forall|i: int| 0 <= i < items.len() ==> decodable_item(#[trigger] items[i]),
    ensures
        ({
            let steps = run(
                chat_fresh(),
                items + seq![ChatEvent::StreamFailed(e), ChatEvent::StopReplied(reply)],
            );
            let k = items.len() as int;
            &&& forall|i: int| 0 <= i < k ==> (#[trigger] steps[i]).message == item_text(items[i])
            &&& steps[k].message is None && steps[k + 1].message is None
            &&& count::<ChatRelay>(steps, Signal::StopCall) == 1
            &&& count::<ChatRelay>(steps, Signal::Completion) == 1
            &&& steps[k].send_stop
            &&& steps[k + 1].completed
            &&& reply is Ok ==> steps[k + 1].outcome == Some(Err::<(), RelayError>(RelayError::Stream(e)))
            &&& reply is Err ==> steps[k + 1].outcome
                == Some(Err::<(), RelayError>(RelayError::StreamNotStopped(e, RpcOp::StopChat, reply->Err_0)))
        }),
{
    let s = chat_fresh();
    let tail = seq![ChatEvent::StreamFailed(e), ChatEvent::StopReplied(reply)];
    lemma_run_split(s, items, tail);
    lemma_items_keep_streaming(s, items);
    lemma_clean_prefix(s, items);
    lemma_run_len(s, items);
    let mid = after(s, items);
    lemma_run_two(mid, tail[0], tail[1]);
    assert(tail =~= seq![tail[0], tail[1]]);
    let a = mid.out(tail[0]);
    let b = mid.next(tail[0]).out(tail[1]);
    lemma_count_single::<ChatRelay>(a, Signal::StopCall);
    lemma_count_single::<ChatRelay>(b, Signal::StopCall);
    lemma_count_single::<ChatRelay>(a, Signal::Completion);
    lemma_count_single::<ChatRelay>(b, Signal::Completion);
    lemma_count_add::<ChatRelay>(seq![a], seq![b], Signal::StopCall);
    lemma_count_add::<ChatRelay>(seq![a], seq![b], Signal::Completion);
    lemma_count_add::<ChatRelay>(run(s, items), run(mid, tail), Signal::StopCall);
    lemma_count_add::<ChatRelay>(run(s, items), run(mid, tail), Signal::Completion);
}

} // verus!
