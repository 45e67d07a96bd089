//! Runs of a relay's decision function over a sequence of events, and the
//! counting facts that the relays' laws rest on.
use vstd::prelude::*;

verus! {

/// The kinds of step that the laws count.
pub enum Signal {
    FirstWord,
    Content,
    StopCall,
    Completion,
}

/// A relay seen as a state machine: a state, an event, the next state and
/// what the host does.
pub trait StepMachine: Sized {
    type Event;
    type Out;

    spec fn next(self, ev: Self::Event) -> Self;

    spec fn out(self, ev: Self::Event) -> Self::Out;

    /// Whether a step carries the signal `k`.
    spec fn carries(v: Self::Out, k: Signal) -> bool;

    /// How many more steps may carry `k` (for every signal but content).
    spec fn budget(self, k: Signal) -> nat;

    /// Whether the stream is no longer read: the stop call is out or the
    /// invocation has ended.
    spec fn stopped(self) -> bool;

    proof fn lemma_step_budget(self, ev: Self::Event, k: Signal)
        requires
            !(k is Content),
        ensures
            (if Self::carries(self.out(ev), k) { 1nat } else { 0nat }) + self.next(ev).budget(k) <= self.budget(k),
    ;

    proof fn lemma_step_stopped(self, ev: Self::Event)
        ensures
            self.stopped() ==> self.next(ev).stopped() && !Self::carries(self.out(ev), Signal::Content),
            Self::carries(self.out(ev), Signal::StopCall) ==> self.next(ev).stopped(),
            Self::carries(self.out(ev), Signal::Completion) ==> self.next(ev).stopped(),
    ;
}

/// The steps taken on a run of events.
pub open spec fn run<M: StepMachine>(s: M, evs: Seq<M::Event>) -> Seq<M::Out>
    decreases evs.len(),
{
    if evs.len() == 0 {
        Seq::empty()
    } else {
        seq![s.out(evs[0])] + run(s.next(evs[0]), evs.drop_first())
    }
}

/// The state after a run of events.
pub open spec fn after<M: StepMachine>(s: M, evs: Seq<M::Event>) -> M
    decreases evs.len(),
{
    if evs.len() == 0 {
        s
    } else {
        after(s.next(evs[0]), evs.drop_first())
    }
}

/// How many steps carry the signal `k`.
pub open spec fn count<M: StepMachine>(steps: Seq<M::Out>, k: Signal) -> nat
    decreases steps.len(),
{
    if steps.len() == 0 {
        0
    } else {
        (if M::carries(steps[0], k) { 1nat } else { 0nat }) + count::<M>(steps.drop_first(), k)
    }
}

pub proof fn lemma_count_add<M: StepMachine>(x: Seq<M::Out>, y: Seq<M::Out>, k: Signal)
    ensures
        count::<M>(x + y, k) == count::<M>(x, k) + count::<M>(y, k),
    decreases x.len(),
{
    if x.len() > 0 {
        assert((x + y).drop_first() =~= x.drop_first() + y);
        lemma_count_add::<M>(x.drop_first(), y, k);
    } else {
        assert(x + y =~= y);
    }
}

pub proof fn lemma_count_single<M: StepMachine>(v: M::Out, k: Signal)
    ensures
        count::<M>(seq![v], k) == if M::carries(v, k) { 1nat } else { 0nat },
{
    assert(seq![v].drop_first() =~= Seq::<M::Out>::empty());
    assert(seq![v][0] == v);
    assert(count::<M>(Seq::<M::Out>::empty(), k) == 0);
}

pub proof fn lemma_run_len<M: StepMachine>(s: M, evs: Seq<M::Event>)
    ensures
        run(s, evs).len() == evs.len(),
    decreases evs.len(),
{
    if evs.len() > 0 {
        lemma_run_len(s.next(evs[0]), evs.drop_first());
    }
}

pub proof fn lemma_run_unfold<M: StepMachine>(s: M, evs: Seq<M::Event>)
    requires
        evs.len() > 0,
    ensures
        run(s, evs)[0] == s.out(evs[0]),
        run(s, evs).drop_first() == run(s.next(evs[0]), evs.drop_first()),
        run(s, evs).len() == evs.len(),
{
    lemma_run_len(s, evs);
    let rest = run(s.next(evs[0]), evs.drop_first());
    assert((seq![s.out(evs[0])] + rest).drop_first() =~= rest);
}

pub proof fn lemma_run_split<M: StepMachine>(s: M, a: Seq<M::Event>, b: Seq<M::Event>)
    ensures
        run(s, a + b) == run(s, a) + run(after(s, a), b),
    decreases a.len(),
{
    if a.len() == 0 {
        assert(a + b =~= b);
        assert(run(s, a) + run(s, b) =~= run(s, b));
    } else {
        assert((a + b).drop_first() =~= a.drop_first() + b);
        assert((a + b)[0] == a[0]);
        lemma_run_split(s.next(a[0]), a.drop_first(), b);
        let head = seq![s.out(a[0])];
        let x = run(s.next(a[0]), a.drop_first());
        let y = run(after(s, a), b);
        assert(head + (x + y) =~= (head + x) + y);
    }
}

/// The steps of two events.
pub proof fn lemma_run_two<M: StepMachine>(s: M, a: M::Event, b: M::Event)
    ensures
        run(s, seq![a, b]) == seq![s.out(a)] + seq![s.next(a).out(b)],
{
    let evs = seq![a, b];
    lemma_run_unfold(s, evs);
    let rest = evs.drop_first();
    assert(rest =~= seq![b]);
    lemma_run_unfold(s.next(a), rest);
    assert(rest.drop_first() =~= Seq::<M::Event>::empty());
    assert(run(s.next(a), rest) =~= seq![s.next(a).out(b)]);
    assert(run(s, evs) =~= seq![s.out(a)] + seq![s.next(a).out(b)]);
}

pub proof fn lemma_budget<M: StepMachine>(s: M, evs: Seq<M::Event>, k: Signal)
    requires
        !(k is Content),
    ensures
        count::<M>(run(s, evs), k) <= s.budget(k),
    decreases evs.len(),
{
    if evs.len() > 0 {
        lemma_run_unfold(s, evs);
        s.lemma_step_budget(evs[0], k);
        lemma_budget(s.next(evs[0]), evs.drop_first(), k);
    }
}

pub proof fn lemma_stays_stopped<M: StepMachine>(s: M, evs: Seq<M::Event>)
    requires
        s.stopped(),
    ensures
        after(s, evs).stopped(),
        forall|j: int| 0 <= j < evs.len() ==> !M::carries(#[trigger] run(s, evs)[j], Signal::Content),
    decreases evs.len(),
{
    lemma_run_len(s, evs);
    if evs.len() > 0 {
        lemma_run_unfold(s, evs);
        s.lemma_step_stopped(evs[0]);
        let rest = evs.drop_first();
        lemma_stays_stopped(s.next(evs[0]), rest);
        assert forall|j: int| 0 <= j < evs.len() implies !M::carries(#[trigger] run(s, evs)[j], Signal::Content) by {
            if j > 0 {
                assert(run(s, evs)[j] == run(s.next(evs[0]), rest)[j - 1]);
            }
        }
    }
}

pub proof fn lemma_no_content_after_stop<M: StepMachine>(s: M, evs: Seq<M::Event>)
    ensures
        forall|i: int, j: int|
            0 <= i < j < evs.len() && M::carries(#[trigger] run(s, evs)[i], Signal::StopCall)
                ==> !M::carries(#[trigger] run(s, evs)[j], Signal::Content),
    decreases evs.len(),
{
    lemma_run_len(s, evs);
    if evs.len() > 0 {
        lemma_run_unfold(s, evs);
        let s1 = s.next(evs[0]);
        let rest = evs.drop_first();
        lemma_no_content_after_stop(s1, rest);
        s.lemma_step_stopped(evs[0]);
        if M::carries(s.out(evs[0]), Signal::StopCall) {
            lemma_stays_stopped(s1, rest);
        }
        assert forall|i: int, j: int|
            0 <= i < j < evs.len() && M::carries(#[trigger] run(s, evs)[i], Signal::StopCall)
                implies !M::carries(#[trigger] run(s, evs)[j], Signal::Content) by {
            assert(run(s, evs)[j] == run(s1, rest)[j - 1]);
            if i > 0 {
                assert(run(s, evs)[i] == run(s1, rest)[i - 1]);
            }
        }
    }
}

/// A run after which the stream is still read sent no stop call and
/// signalled no completion.
pub proof fn lemma_clean_prefix<M: StepMachine>(s: M, pre: Seq<M::Event>)
    requires
        !after(s, pre).stopped(),
    ensures
        count::<M>(run(s, pre), Signal::StopCall) == 0,
        count::<M>(run(s, pre), Signal::Completion) == 0,
    decreases pre.len(),
{
    if pre.len() > 0 {
        let s1 = s.next(pre[0]);
        s.lemma_step_stopped(pre[0]);
        if s1.stopped() {
            lemma_stays_stopped(s1, pre.drop_first());
        }
        lemma_run_unfold(s, pre);
        lemma_clean_prefix(s1, pre.drop_first());
    }
}

} // verus!
