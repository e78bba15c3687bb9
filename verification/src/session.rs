use vstd::prelude::*;

use crate::message::DownloadOutcome;
use crate::message::DownloadProgress;

verus! {

/// One event reaching a session's multiplexing point: a cancellation
/// request, a progress event from the runner, or the runner's terminal
/// outcome.
#[derive(Debug)]
pub enum SessionEvent {
    CancelRequested,
    Progress(DownloadProgress),
    RunnerDone(DownloadOutcome),
}

/// One value a session hands downstream.
#[derive(Debug)]
pub enum SessionOutput {
    Progress(DownloadProgress),
    Outcome(DownloadOutcome),
}

/// What one step of a session asks its surroundings to do: hand a value
/// downstream, and perhaps terminate the worker process.
#[derive(Debug)]
pub struct SessionStep {
    pub output: Option<SessionOutput>,
    pub kill_child: bool,
}

/// The decision state of one download session. Once a terminal outcome
/// has been handed downstream the session is finished, and every later
/// event — a late runner report as much as a repeated cancellation — is
/// discarded.
#[derive(Debug, Clone, Copy, PartialEq, Eq, Structural)]
pub struct Session {
    pub finished: bool,
    pub cancelled: bool,
}

impl Session {
    /// A session only counts as cancelled once it is finished.
    pub open spec fn wf(self) -> bool {
        self.cancelled ==> self.finished
    }

    /// The state of a session that has seen no event yet.
    pub open spec fn spec_new() -> Session {
        Session { finished: false, cancelled: false }
    }

    /// Begin a session: nothing has happened yet.
    pub fn new() -> (r: Session)
        ensures
            r == Session::spec_new(),
    {
        Session { finished: false, cancelled: false }
    }

    /// One step of the session on one event.
    ///
    /// A finished session discards everything. An unfinished one answers
    /// a cancellation with the `Cancelled` outcome and an order to kill
    /// the worker, forwards a progress event unchanged, and forwards the
    /// runner's own outcome unchanged.
    pub open spec fn spec_step(s: Session, event: SessionEvent) -> (Session, Option<
        SessionOutput,
    >, bool) {
        if s.finished {
            (s, Option::None, false)
        } else {
            match event {
                SessionEvent::CancelRequested => (
                    Session { finished: true, cancelled: true },
                    Option::Some(SessionOutput::Outcome(DownloadOutcome::Cancelled)),
                    true,
                ),
                SessionEvent::Progress(p) => (
                    s,
                    Option::Some(SessionOutput::Progress(p)),
                    false,
                ),
                SessionEvent::RunnerDone(o) => (
                    Session { finished: true, cancelled: s.cancelled },
                    Option::Some(SessionOutput::Outcome(o)),
                    false,
                ),
            }
        }
    }

    /// Take in one event and say what to hand downstream and whether to
    /// terminate the worker process.
    pub fn step(&mut self, event: SessionEvent) -> (r: SessionStep)
        ensures
            ({
                let (s2, out, kill) = Session::spec_step(*old(self), event);
                &&& *final(self) == s2
                &&& r.output == out
                &&& r.kill_child == kill
            }),
            old(self).wf() ==> final(self).wf(),
    {
        if self.finished {
            SessionStep { output: Option::None, kill_child: false }
        } else {
            match event {
                SessionEvent::CancelRequested => {
                    self.finished = true;
                    self.cancelled = true;
                    SessionStep {
                        output: Option::Some(SessionOutput::Outcome(DownloadOutcome::Cancelled)),
                        kill_child: true,
                    }
                },
                SessionEvent::Progress(p) => SessionStep {
                    output: Option::Some(SessionOutput::Progress(p)),
                    kill_child: false,
                },
                SessionEvent::RunnerDone(o) => {
                    self.finished = true;
                    SessionStep {
                        output: Option::Some(SessionOutput::Outcome(o)),
                        kill_child: false,
                    }
                },
            }
        }
    }

    /// A whole run: the state and the downstream sequence after a session
    /// takes in `events` one by one.
    pub open spec fn spec_run(s: Session, events: Seq<SessionEvent>) -> (Session, Seq<
        SessionOutput,
    >)
        decreases events.len(),
    {
        if events.len() == 0 {
            (s, Seq::empty())
        } else {
            let (s1, out, kill) = Session::spec_step(s, events[0]);
            let (s2, rest) = Session::spec_run(s1, events.drop_first());
            (
                s2,
                match out {
                    Option::Some(o) => seq![o] + rest,
                    Option::None => rest,
                },
            )
        }
    }
}

/// True when the output is a terminal outcome, of whatever kind.
pub open spec fn is_outcome(o: SessionOutput) -> bool {
    o is Outcome
}

/// A finished session hands nothing more downstream, whatever arrives.
pub proof fn lemma_finished_discards(s: Session, events: Seq<SessionEvent>)
    requires
        s.finished,
    ensures
        Session::spec_run(s, events) == (s, Seq::<SessionOutput>::empty()),
    decreases events.len(),
{
    if events.len() > 0 {
        lemma_finished_discards(s, events.drop_first());
    }
}

/// A session never hands two terminal outcomes downstream: after the
/// first outcome — `Cancelled` or the runner's own — nothing follows it.
pub proof fn lemma_single_outcome(s: Session, events: Seq<SessionEvent>)
    ensures
        ({
            let (s2, outs) = Session::spec_run(s, events);
            forall|i: int, j: int|
                0 <= i < j < outs.len() && is_outcome(#[trigger] outs[i]) ==> !is_outcome(
                    #[trigger] outs[j],
                )
        }),
    decreases events.len(),
{
    if events.len() > 0 {
        let (s1, out, kill) = Session::spec_step(s, events[0]);
        lemma_single_outcome(s1, events.drop_first());
        let (s2, rest) = Session::spec_run(s1, events.drop_first());
        if !s.finished {
            match events[0] {
                SessionEvent::CancelRequested | SessionEvent::RunnerDone(_) => {
                    lemma_finished_discards(s1, events.drop_first());
                },
                SessionEvent::Progress(_) => {},
            }
        }
    }
}

/// Before anything terminal happens, progress events pass through one by
/// one, unchanged and in order, and the session state does not move.
pub proof fn lemma_progress_in_order(s: Session, events: Seq<SessionEvent>)
    requires
        !s.finished,
        forall|i: int| 0 <= i < events.len() ==> #[trigger] events[i] is Progress,
    ensures
        ({
            let (s2, outs) = Session::spec_run(s, events);
            &&& s2 == s
            &&& outs.len() == events.len()
            &&& forall|i: int|
                0 <= i < events.len() ==> #[trigger] outs[i] == SessionOutput::Progress(
                    events[i]->Progress_0,
                )
        }),
    decreases events.len(),
{
    if events.len() > 0 {
        assert(events[0] is Progress);
        let rest = events.drop_first();
        assert(forall|i: int| 0 <= i < rest.len() ==> #[trigger] rest[i] is Progress);
        lemma_progress_in_order(s, rest);
        let (s2, outs) = Session::spec_run(s, events);
        let (s2r, outs_rest) = Session::spec_run(s, rest);
        assert(forall|i: int| 1 <= i < outs.len() ==> #[trigger] outs[i] == outs_rest[i - 1]);
        assert(forall|i: int| 1 <= i < events.len() ==> #[trigger] events[i] == rest[i - 1]);
    }
}

/// Cancellation wins every race it starts first: when a cancellation
/// arrives before any terminal event from the runner, the downstream
/// sequence is exactly the progress events seen so far followed by the
/// single outcome `Cancelled`, and nothing after it — however the runner
/// later reports.
pub proof fn lemma_cancel_before_terminal(events: Seq<SessionEvent>, k: int)
    requires
        0 <= k < events.len(),
        events[k] == SessionEvent::CancelRequested,
        forall|i: int| 0 <= i < k ==> #[trigger] events[i] is Progress,
    ensures
        ({
            let (s2, outs) = Session::spec_run(Session::spec_new(), events);
            &&& s2.finished
            &&& s2.cancelled
            &&& outs.len() == k + 1
            &&& forall|i: int| 0 <= i < k ==> #[trigger] outs[i] is Progress
            &&& outs[k] == SessionOutput::Outcome(DownloadOutcome::Cancelled)
        }),
{
    lemma_cancel_run(Session::spec_new(), events, k);
}

proof fn lemma_cancel_run(s: Session, events: Seq<SessionEvent>, k: int)
    requires
        !s.finished,
        0 <= k < events.len(),
        events[k] == SessionEvent::CancelRequested,
        forall|i: int| 0 <= i < k ==> #[trigger] events[i] is Progress,
    ensures
        ({
            let (s2, outs) = Session::spec_run(s, events);
            &&& s2.finished
            &&& s2.cancelled
            &&& outs.len() == k + 1
            &&& forall|i: int| 0 <= i < k ==> #[trigger] outs[i] is Progress
            &&& outs[k] == SessionOutput::Outcome(DownloadOutcome::Cancelled)
        }),
    decreases k,
{
    let (s1, out, kill) = Session::spec_step(s, events[0]);
    if k == 0 {
        lemma_finished_discards(s1, events.drop_first());
    } else {
        assert(events[0] is Progress);
        let rest = events.drop_first();
        assert(rest[k - 1] == events[k]);
        assert(forall|i: int| 0 <= i < k - 1 ==> #[trigger] rest[i] is Progress);
        lemma_cancel_run(s1, rest, k - 1);
        let (s2, outs_rest) = Session::spec_run(s1, rest);
        let (s2b, outs) = Session::spec_run(s, events);
        assert(outs == seq![SessionOutput::Progress(events[0]->Progress_0)] + outs_rest);
        assert(forall|i: int| 1 <= i < k ==> outs[i] == outs_rest[i - 1]);
    }
}

/// When the runner's own report comes first, it is forwarded unchanged:
/// the downstream sequence is exactly the progress events seen so far
/// followed by that single outcome, and nothing after it.
pub proof fn lemma_runner_outcome_forwarded(events: Seq<SessionEvent>, k: int)
    requires
        0 <= k < events.len(),
        events[k] is RunnerDone,
        forall|i: int| 0 <= i < k ==> #[trigger] events[i] is Progress,
    ensures
        ({
            let (s2, outs) = Session::spec_run(Session::spec_new(), events);
            &&& s2.finished
            &&& !s2.cancelled
            &&& outs.len() == k + 1
            &&& forall|i: int| 0 <= i < k ==> #[trigger] outs[i] is Progress
            &&& outs[k] == SessionOutput::Outcome(events[k]->RunnerDone_0)
        }),
{
    lemma_runner_outcome_run(Session::spec_new(), events, k);
}

proof fn lemma_runner_outcome_run(s: Session, events: Seq<SessionEvent>, k: int)
    requires
        !s.finished,
        !s.cancelled,
        0 <= k < events.len(),
        events[k] is RunnerDone,
        forall|i: int| 0 <= i < k ==> #[trigger] events[i] is Progress,
    ensures
        ({
            let (s2, outs) = Session::spec_run(s, events);
            &&& s2.finished
            &&& !s2.cancelled
            &&& outs.len() == k + 1
            &&& forall|i: int| 0 <= i < k ==> #[trigger] outs[i] is Progress
            &&& outs[k] == SessionOutput::Outcome(events[k]->RunnerDone_0)
        }),
    decreases k,
{
    let (s1, out, kill) = Session::spec_step(s, events[0]);
    if k == 0 {
        lemma_finished_discards(s1, events.drop_first());
    } else {
        assert(events[0] is Progress);
        let rest = events.drop_first();
        assert(rest[k - 1] == events[k]);
        assert(forall|i: int| 0 <= i < k - 1 ==> #[trigger] rest[i] is Progress);
        lemma_runner_outcome_run(s1, rest, k - 1);
        let (s2, outs_rest) = Session::spec_run(s1, rest);
        let (s2b, outs) = Session::spec_run(s, events);
        assert(outs == seq![SessionOutput::Progress(events[0]->Progress_0)] + outs_rest);
        assert(forall|i: int| 1 <= i < k + 1 ==> outs[i] == outs_rest[i - 1]);
    }
}

/// Cancelling is idempotent: the first cancellation of a live session
/// yields the one `Cancelled` outcome and the order to kill the worker;
/// a second cancellation — like any cancellation of a finished session —
/// changes nothing, emits nothing, and kills nothing.
pub proof fn lemma_cancel_idempotent(s: Session)
    requires
        !s.finished,
    ensures
        ({
            let (s1, out1, kill1) = Session::spec_step(s, SessionEvent::CancelRequested);
            let (s2, out2, kill2) = Session::spec_step(s1, SessionEvent::CancelRequested);
            &&& out1 == Option::Some(SessionOutput::Outcome(DownloadOutcome::Cancelled))
            &&& kill1
            &&& s2 == s1
            &&& out2 is None
            &&& !kill2
        }),
{
}

/// A cancellation after the terminal outcome is a no-op.
pub proof fn lemma_cancel_after_terminal(s: Session)
    requires
        s.finished,
    ensures
        ({
            let (s1, out, kill) = Session::spec_step(s, SessionEvent::CancelRequested);
            s1 == s && out is None && !kill
        }),
{
}

} // verus!
