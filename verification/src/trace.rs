//! Laws about whole poll histories of one composed future.
//!
//! A poll history is the sequence of observations one caller makes of a
//! single request's future: at each poll, a clock reading and whether the
//! inner computation was still suspended. `run_events` folds
//! [`LoggingFuture::step_events`] and [`LoggingFuture::step_state`] over
//! such a history, so everything proved here holds of any caller that
//! drives the future through `poll_step`.

use vstd::prelude::*;

use crate::event::LogEvent;
use crate::future::LoggingFuture;

verus! {

/// One poll as the composed future sees it: the monotonic clock's reading,
/// and whether the inner computation was still suspended.
#[derive(Clone, Copy)]
pub struct PollInput {
    pub now_ms: u64,
    pub pending: bool,
}

/// All log events emitted over a poll history, in order.
pub open spec fn run_events(f: LoggingFuture, polls: Seq<PollInput>) -> Seq<LogEvent>
    decreases polls.len(),
{
    if polls.len() == 0 {
        Seq::empty()
    } else {
        f.step_events(polls[0].now_ms, polls[0].pending) + run_events(
            f.step_state(polls[0].pending),
            polls.drop_first(),
        )
    }
}

/// A poll history that drives the request to a terminal state: every poll
/// but the last finds the inner computation suspended, and the last one
/// finds it terminal.
pub open spec fn drives_to_terminal(polls: Seq<PollInput>) -> bool {
    &&& polls.len() > 0
    &&& forall|i: int| 0 <= i < polls.len() - 1 ==> (#[trigger] polls[i]).pending
    &&& !polls.last().pending
}

/// Law: once a request's future has been polled, a poll history that drives
/// it to a terminal state emits exactly the completion event, attributed to
/// the request's own method and path, with the elapsed time taken at the
/// terminal poll.
pub proof fn lemma_in_progress_run_events(f: LoggingFuture, polls: Seq<PollInput>)
    requires
        f.phase is InProgress,
        drives_to_terminal(polls),
    ensures
        run_events(f, polls) =~= seq![f.complete_event(polls.last().now_ms)],
    decreases polls.len(),
{
    if polls.len() == 1 {
        assert(run_events(f.step_state(polls[0].pending), polls.drop_first()) =~= Seq::empty());
    } else {
        assert(polls[0].pending);
        let g = f.step_state(true);
        assert(g.phase is InProgress);
        assert(drives_to_terminal(polls.drop_first())) by {
            assert(forall|i: int|
                0 <= i < polls.drop_first().len() - 1 ==> (#[trigger] polls.drop_first()[i])
                    == polls[i + 1]);
            assert(polls.drop_first().last() == polls.last());
        }
        lemma_in_progress_run_events(g, polls.drop_first());
        assert(g.complete_event(polls.drop_first().last().now_ms) == f.complete_event(
            polls.last().now_ms,
        ));
    }
}

/// Law: a request whose future is driven from creation to a terminal state
/// emits exactly one start event followed by exactly one completion event —
/// never more, never fewer, whatever number of polls lies in between — both
/// attributed to the request's own method and path, and the completion
/// carries the elapsed time between creation and the terminal poll.
pub proof fn lemma_terminal_run_events(f: LoggingFuture, polls: Seq<PollInput>)
    requires
        f.phase is Created,
        drives_to_terminal(polls),
    ensures
        run_events(f, polls) =~= seq![
            f.start_event(),
            f.complete_event(polls.last().now_ms),
        ],
{
    if polls.len() == 1 {
        assert(run_events(f.step_state(polls[0].pending), polls.drop_first()) =~= Seq::empty());
    } else {
        assert(polls[0].pending);
        let g = f.step_state(true);
        assert(drives_to_terminal(polls.drop_first())) by {
            assert(forall|i: int|
                0 <= i < polls.drop_first().len() - 1 ==> (#[trigger] polls.drop_first()[i])
                    == polls[i + 1]);
            assert(polls.drop_first().last() == polls.last());
        }
        lemma_in_progress_run_events(g, polls.drop_first());
        assert(g.complete_event(polls.drop_first().last().now_ms) == f.complete_event(
            polls.last().now_ms,
        ));
    }
}

/// The events of one poll, whatever the phase and the outcome, written out
/// as the short sequence they are.
pub proof fn lemma_step_events_cases(f: LoggingFuture, now_ms: u64, pending: bool)
    ensures
        f.phase is Created && pending ==> f.step_events(now_ms, pending) =~= seq![
            f.start_event(),
        ],
        f.phase is Created && !pending ==> f.step_events(now_ms, pending) =~= seq![
            f.start_event(),
            f.complete_event(now_ms),
        ],
        !(f.phase is Created) && pending ==> f.step_events(now_ms, pending) =~= Seq::<
            LogEvent,
        >::empty(),
        !(f.phase is Created) && !pending ==> f.step_events(now_ms, pending) =~= seq![
            f.complete_event(now_ms),
        ],
{
}

/// Law: a poll history in which the inner computation never turns terminal
/// — a request whose future is dropped before completion — emits no
/// completion event at all.
pub proof fn lemma_dropped_no_complete(f: LoggingFuture, polls: Seq<PollInput>)
    requires
        forall|i: int| 0 <= i < polls.len() ==> (#[trigger] polls[i]).pending,
    ensures
        forall|i: int|
            0 <= i < run_events(f, polls).len() ==> !((#[trigger] run_events(f, polls)[i])
                is Complete),
    decreases polls.len(),
{
    if polls.len() > 0 {
        assert(polls[0].pending);
        let g = f.step_state(true);
        let head = f.step_events(polls[0].now_ms, true);
        let tail = run_events(g, polls.drop_first());
        assert(forall|i: int|
            0 <= i < polls.drop_first().len() ==> (#[trigger] polls.drop_first()[i]).pending);
        lemma_dropped_no_complete(g, polls.drop_first());
        lemma_step_events_cases(f, polls[0].now_ms, true);
        assert(run_events(f, polls) == head + tail);
        assert forall|i: int| 0 <= i < run_events(f, polls).len() implies !((#[trigger] run_events(
            f,
            polls,
        )[i]) is Complete) by {
            if i < head.len() {
                assert((head + tail)[i] == head[i]);
                assert(head[i] == f.start_event());
            } else {
                assert((head + tail)[i] == tail[i - head.len()]);
            }
        }
    }
}

/// Law: every event a future ever emits is attributed to that future's own
/// method and path. Independent requests therefore never contaminate each
/// other's logs: each of their futures owns its snapshot, and its events
/// speak only of that snapshot.
pub proof fn lemma_events_attributable(f: LoggingFuture, polls: Seq<PollInput>)
    ensures
        forall|i: int|
            0 <= i < run_events(f, polls).len() ==> (#[trigger] run_events(f, polls)[i]).method_of()
                == f.method@ && run_events(f, polls)[i].path_of() == f.path@,
    decreases polls.len(),
{
    if polls.len() > 0 {
        let g = f.step_state(polls[0].pending);
        let head = f.step_events(polls[0].now_ms, polls[0].pending);
        let tail = run_events(g, polls.drop_first());
        lemma_events_attributable(g, polls.drop_first());
        lemma_step_events_cases(f, polls[0].now_ms, polls[0].pending);
        assert(g.method == f.method && g.path == f.path);
        assert(run_events(f, polls) == head + tail);
        assert forall|i: int| 0 <= i < run_events(f, polls).len() implies (#[trigger] run_events(
            f,
            polls,
        )[i]).method_of() == f.method@ && run_events(f, polls)[i].path_of() == f.path@ by {
            if i < head.len() {
                assert((head + tail)[i] == head[i]);
            } else {
                assert((head + tail)[i] == tail[i - head.len()]);
            }
        }
    }
}

/// Law: two concurrently dispatched requests never contaminate each other's
/// logs — when their captured paths differ, no event of the one ever carries
/// the path of the other, however their polls interleave.
pub proof fn lemma_no_cross_contamination(
    f1: LoggingFuture,
    f2: LoggingFuture,
    polls1: Seq<PollInput>,
)
    requires
        f1.path@ != f2.path@,
    ensures
        forall|i: int|
            0 <= i < run_events(f1, polls1).len() ==> (#[trigger] run_events(f1, polls1)[i]).path_of()
                != f2.path@,
{
    lemma_events_attributable(f1, polls1);
}

} // verus!
