use vstd::prelude::*;

use crate::context::CapturedContext;
use crate::frame::StackFrame;
use crate::walker::{seeded, Action, Event, Phase, TraceEnd, Tracer};

verus! {

/// `ts` are the successive tracers of a trace that took in `es` and asked
/// for `acts`: each event answered the pending action, and led from `ts[i]`
/// to `ts[i + 1]` with action `acts[i]`.
pub open spec fn is_run(ts: Seq<Tracer>, es: Seq<Event>, acts: Seq<Action>) -> bool {
    &&& ts.len() == es.len() + 1
    &&& acts.len() == es.len()
    &&& forall|i: int|
        #![trigger es[i]]
        0 <= i < es.len() ==> ts[i].accepts(es[i]) && ts[i].steps_to(es[i], ts[i + 1], acts[i])
}

/// Whether the thread was reported suspended among the first `k` events.
pub open spec fn suspended_within(es: Seq<Event>, k: int) -> bool {
    exists|j: int| 0 <= j < k && #[trigger] es[j] == Event::Suspended
}

/// Whether an event reports an engine that offers the modern walker.
pub open spec fn engine_offers_modern(e: Event) -> bool {
    e matches Event::EngineReady { modern } && modern
}

/// The walk record an action carries, if any.
pub open spec fn record_of(a: Action) -> Option<StackFrame> {
    match a {
        Action::Walk { frame, .. } => Some(frame),
        Action::Deliver(f) => Some(f.record()),
        _ => None,
    }
}

/// Why an action ends the trace, if it does.
pub open spec fn end_of(a: Action) -> Option<TraceEnd> {
    match a {
        Action::Done { end, .. } => Some(end),
        _ => None,
    }
}

proof fn lemma_seeded_keeps_kind(rec: StackFrame, ctx: CapturedContext)
    ensures
        seeded(rec, ctx).is_modern() == rec.is_modern(),
{
    match rec {
        StackFrame::New(_) => {},
        StackFrame::Old(_) => {},
    }
}

proof fn lemma_finished_is_last(ts: Seq<Tracer>, es: Seq<Event>, acts: Seq<Action>, k: int)
    requires
        is_run(ts, es, acts),
        0 <= k <= es.len(),
        ts[k].phase is Finished,
    ensures
        k == es.len(),
{
    if k < es.len() {
        assert(ts[k].accepts(es[k]));
    }
}

proof fn lemma_prefix(ts: Seq<Tracer>, es: Seq<Event>, acts: Seq<Action>, thread: usize, k: int)
    requires
        is_run(ts, es, acts),
        ts[0].is_start(thread),
        0 <= k <= es.len(),
    ensures
        ts[k].thread == thread,
        ts[k].must_resume == suspended_within(es, k),
        k == 0 <==> ts[k].phase == Phase::AwaitEngine,
        ts[k].phase == Phase::AwaitSuspend ==> !ts[k].must_resume,
        ts[k].phase == Phase::AwaitContext ==> ts[k].must_resume,
        k >= 1 ==> ts[k].modern == ts[1].modern,
        k >= 1 && es[0] is EngineReady ==> ts[k].frame.record().is_modern() == ts[k].modern,
    decreases k,
{
    if k > 0 {
        lemma_prefix(ts, es, acts, thread, k - 1);
        let p = k - 1;
        assert(ts[p].accepts(es[p]) && ts[p].steps_to(es[p], ts[k], acts[p]));
        if let Event::ContextCaptured(ctx) = es[p] {
            lemma_seeded_keeps_kind(ts[p].frame.record(), ctx);
        }
        if es[p] == Event::Suspended {
            assert(suspended_within(es, k));
        } else {
            if suspended_within(es, k) {
                let j = choose|j: int| 0 <= j < k && #[trigger] es[j] == Event::Suspended;
                assert(j != p);
                assert(suspended_within(es, p));
            }
            if suspended_within(es, p) {
                let j = choose|j: int| 0 <= j < p && #[trigger] es[j] == Event::Suspended;
                assert(suspended_within(es, k));
            }
        }
    } else {
        assert(!suspended_within(es, 0));
    }
}

/// Suspending and resuming are paired on every path: the thread is
/// suspended at most once, by the first action after the engine is ready;
/// the trace ends at most once, by its last action; and that last action
/// resumes the thread exactly when it was reported suspended. A failed
/// suspension ends without a resume; a failed context read ends with one.
pub proof fn lemma_resume_paired(
    ts: Seq<Tracer>,
    es: Seq<Event>,
    acts: Seq<Action>,
    thread: usize,
)
    requires
        is_run(ts, es, acts),
        ts[0].is_start(thread),
    ensures
        forall|i: int| 0 <= i < acts.len() && #[trigger] acts[i] is Suspend ==> i == 0,
        forall|i: int|
            0 <= i < acts.len() && #[trigger] acts[i] is Done ==> i == acts.len() - 1
                && acts[i]->resume_thread == suspended_within(es, es.len() as int),
        forall|i: int|
            0 <= i < es.len() && #[trigger] es[i] == Event::SuspendFailed ==> acts[i]
                == (Action::Done { resume_thread: false, end: TraceEnd::SuspendFailed }),
        forall|i: int|
            0 <= i < es.len() && #[trigger] es[i] == Event::ContextReadFailed ==> acts[i]
                == (Action::Done { resume_thread: true, end: TraceEnd::ContextReadFailed }),
{
    assert forall|i: int| 0 <= i < acts.len() && #[trigger] acts[i] is Suspend implies i == 0 by {
        lemma_prefix(ts, es, acts, thread, i);
        assert(ts[i].accepts(es[i]) && ts[i].steps_to(es[i], ts[i + 1], acts[i]));
    }
    assert forall|i: int| 0 <= i < acts.len() && #[trigger] acts[i] is Done implies i == acts.len()
        - 1 && acts[i]->resume_thread == suspended_within(es, es.len() as int) by {
        lemma_prefix(ts, es, acts, thread, i);
        assert(ts[i].accepts(es[i]) && ts[i].steps_to(es[i], ts[i + 1], acts[i]));
        lemma_finished_is_last(ts, es, acts, i + 1);
        if es[i] == Event::Suspended {
            assert(false);
        }
        if suspended_within(es, es.len() as int) {
            let j = choose|j: int| 0 <= j < es.len() && #[trigger] es[j] == Event::Suspended;
            assert(j != i);
            assert(suspended_within(es, i));
        }
        if suspended_within(es, i) {
            let j = choose|j: int| 0 <= j < i && #[trigger] es[j] == Event::Suspended;
            assert(suspended_within(es, es.len() as int));
        }
    }
    assert forall|i: int| 0 <= i < es.len() && #[trigger] es[i] == Event::SuspendFailed implies acts[i]
        == (Action::Done { resume_thread: false, end: TraceEnd::SuspendFailed }) by {
        lemma_prefix(ts, es, acts, thread, i);
        assert(ts[i].accepts(es[i]) && ts[i].steps_to(es[i], ts[i + 1], acts[i]));
    }
    assert forall|i: int| 0 <= i < es.len() && #[trigger] es[i] == Event::ContextReadFailed implies acts[i]
        == (Action::Done { resume_thread: true, end: TraceEnd::ContextReadFailed }) by {
        lemma_prefix(ts, es, acts, thread, i);
        assert(ts[i].accepts(es[i]) && ts[i].steps_to(es[i], ts[i + 1], acts[i]));
    }
}

/// The walk stops exactly when the callback answers `false` or the walker
/// reports no further level: either event ends the trace at once, with its
/// own reason, so no walk follows it; and the trace ends for one of these two
/// reasons only on that event.
pub proof fn lemma_walk_stops(
    ts: Seq<Tracer>,
    es: Seq<Event>,
    acts: Seq<Action>,
    thread: usize,
)
    requires
        is_run(ts, es, acts),
        ts[0].is_start(thread),
    ensures
        forall|i: int|
            0 <= i < es.len() && #[trigger] es[i] == Event::CallbackReturned(false) ==> i == es.len()
                - 1 && end_of(acts[i]) == Some(TraceEnd::StoppedByCallback),
        forall|i: int|
            0 <= i < es.len() && #[trigger] es[i] is Exhausted ==> i == es.len() - 1 && end_of(acts[i])
                == Some(TraceEnd::WalkExhausted),
        forall|i: int|
            0 <= i < acts.len() ==> (#[trigger] end_of(acts[i]) == Some(TraceEnd::StoppedByCallback)
                <==> es[i] == Event::CallbackReturned(false)),
        forall|i: int|
            0 <= i < acts.len() ==> (#[trigger] end_of(acts[i]) == Some(TraceEnd::WalkExhausted)
                <==> es[i] is Exhausted),
{
    assert forall|i: int| 0 <= i < es.len() && #[trigger] es[i] == Event::CallbackReturned(false) implies i
        == es.len() - 1 && end_of(acts[i]) == Some(TraceEnd::StoppedByCallback) by {
        assert(ts[i].accepts(es[i]) && ts[i].steps_to(es[i], ts[i + 1], acts[i]));
        lemma_finished_is_last(ts, es, acts, i + 1);
    }
    assert forall|i: int| 0 <= i < es.len() && #[trigger] es[i] is Exhausted implies i == es.len() - 1
        && end_of(acts[i]) == Some(TraceEnd::WalkExhausted) by {
        assert(ts[i].accepts(es[i]) && ts[i].steps_to(es[i], ts[i + 1], acts[i]));
        lemma_finished_is_last(ts, es, acts, i + 1);
    }
    assert forall|i: int| 0 <= i < acts.len() implies (#[trigger] end_of(acts[i]) == Some(
        TraceEnd::StoppedByCallback,
    ) <==> es[i] == Event::CallbackReturned(false)) by {
        assert(ts[i].accepts(es[i]) && ts[i].steps_to(es[i], ts[i + 1], acts[i]));
    }
    assert forall|i: int| 0 <= i < acts.len() implies (#[trigger] end_of(acts[i]) == Some(
        TraceEnd::WalkExhausted,
    ) <==> es[i] is Exhausted) by {
        assert(ts[i].accepts(es[i]) && ts[i].steps_to(es[i], ts[i + 1], acts[i]));
    }
}

/// One trace walks with one kind of record: every record it hands to the
/// walker or to the callback is of the kind the engine offered when the
/// trace began, modern or legacy, never a mix.
pub proof fn lemma_one_record_kind(
    ts: Seq<Tracer>,
    es: Seq<Event>,
    acts: Seq<Action>,
    thread: usize,
)
    requires
        is_run(ts, es, acts),
        ts[0].is_start(thread),
    ensures
        forall|i: int, j: int|
            0 <= i < acts.len() && 0 <= j < acts.len() && (#[trigger] record_of(acts[i])) is Some
                && (#[trigger] record_of(acts[j])) is Some ==> record_of(acts[i])->0.same_kind(
                record_of(acts[j])->0,
            ),
        forall|i: int|
            0 <= i < acts.len() && (#[trigger] record_of(acts[i])) is Some ==> record_of(
                acts[i],
            )->0.is_modern() == engine_offers_modern(es[0]),
{
    assert forall|i: int| 0 <= i < acts.len() && (#[trigger] record_of(acts[i])) is Some implies record_of(
        acts[i],
    )->0.is_modern() == engine_offers_modern(es[0]) by {
        lemma_prefix(ts, es, acts, thread, i);
        lemma_prefix(ts, es, acts, thread, i + 1);
        lemma_prefix(ts, es, acts, thread, 1);
        assert(ts[0].accepts(es[0]) && ts[0].steps_to(es[0], ts[1], acts[0]));
        if es[0] is EngineUnavailable {
            lemma_finished_is_last(ts, es, acts, 1);
        }
        assert(ts[i].accepts(es[i]) && ts[i].steps_to(es[i], ts[i + 1], acts[i]));
    }
}

} // verus!
