//! The composed future's state machine.
//!
//! A `LoggingFuture` is created once per request. It owns the request's
//! method and path (an immutable snapshot taken at dispatch time) and the
//! timestamp of its creation, and it records how far the wrapped computation
//! has come. Each poll of the real future reduces to one call of
//! [`LoggingFuture::poll_step`]: the caller reports what the inner
//! computation did, and the step decides which log events to emit, how the
//! phase advances, and passes the inner outcome through unchanged.
//!
//! Chosen behaviour, stated explicitly: the start event is emitted exactly
//! once per request, on the first poll — not on every poll — and the
//! completion event exactly once, on the poll that observes the terminal
//! state.

use vstd::prelude::*;

use crate::event::LogEvent;

verus! {

/// How far a composed future has come.
///
/// `Created` means it has never been polled; `InProgress` means it has been
/// polled at least once and the inner computation is not yet terminal;
/// `Terminal` means the inner computation produced its result. Polling after
/// `Terminal` is outside the contract, matching the standard contract for
/// asynchronous computations.
#[derive(Clone, Copy, PartialEq, Eq, Structural)]
pub enum Phase {
    Created,
    InProgress,
    Terminal,
}

/// One observation of the inner computation: either it is still suspended,
/// or it reached a terminal state with a success or an error value.
pub enum InnerPoll<T, E> {
    Pending,
    Ready(Result<T, E>),
}

impl<T, E> InnerPoll<T, E> {
    /// Whether this observation is a suspension.
    pub open spec fn is_pending(self) -> bool {
        self is Pending
    }
}

/// The per-request instrumentation state of the composed future.
///
/// The real future pairs this state with the inner in-flight computation;
/// the state itself holds only plain values, so every decision made over it
/// is verified.
pub struct LoggingFuture {
    /// The request's method token, captured at dispatch time.
    pub method: String,
    /// The request's path, captured at dispatch time.
    pub path: String,
    /// When the future was created, in milliseconds of a monotonic clock.
    pub start_ms: u64,
    /// How far the wrapped computation has come.
    pub phase: Phase,
}

impl LoggingFuture {
    /// The elapsed time reported if the future turns terminal at `now_ms`.
    pub open spec fn elapsed_at(self, now_ms: u64) -> u64 {
        (now_ms - self.start_ms) as u64
    }

    /// The `Start` event attributed to this request.
    pub open spec fn start_event(self) -> LogEvent {
        LogEvent::Start { method: self.method, path: self.path }
    }

    /// The `Complete` event attributed to this request when it turns
    /// terminal at `now_ms`.
    pub open spec fn complete_event(self, now_ms: u64) -> LogEvent {
        LogEvent::Complete {
            method: self.method,
            path: self.path,
            elapsed_ms: self.elapsed_at(now_ms),
        }
    }

    /// The events one poll emits: `Start` exactly on the first poll, then
    /// `Complete` exactly when the inner computation turns terminal — in
    /// that order when one poll emits both.
    pub open spec fn step_events(self, now_ms: u64, pending: bool) -> Seq<LogEvent> {
        let starts: Seq<LogEvent> = if self.phase is Created {
            seq![self.start_event()]
        } else {
            Seq::empty()
        };
        let completes: Seq<LogEvent> = if pending {
            Seq::empty()
        } else {
            seq![self.complete_event(now_ms)]
        };
        starts + completes
    }

    /// The state after one poll: the snapshot fields never change, and the
    /// phase advances to `InProgress` or `Terminal` with the inner outcome.
    pub open spec fn step_state(self, pending: bool) -> LoggingFuture {
        LoggingFuture {
            phase: if pending {
                Phase::InProgress
            } else {
                Phase::Terminal
            },
            ..self
        }
    }

    /// Creates the instrumentation state for one request, before its first
    /// poll.
    pub fn new(method: String, path: String, now_ms: u64) -> (f: LoggingFuture)
        ensures
            f == (LoggingFuture { method, path, start_ms: now_ms, phase: Phase::Created }),
    {
        LoggingFuture { method, path, start_ms: now_ms, phase: Phase::Created }
    }

    /// One poll of the composed future.
    ///
    /// The caller polls the inner computation, passing the scheduler's
    /// wake-up context through unchanged, and reports the outcome here
    /// together with the current reading of the monotonic clock. The step
    /// returns the log events to emit, in order, and the inner outcome
    /// itself, untouched: the decorator neither interprets nor transforms
    /// the inner result, and a suspension is propagated with no further
    /// action.
    pub fn poll_step<T, E>(&mut self, now_ms: u64, inner: InnerPoll<T, E>) -> (r: (
        Vec<LogEvent>,
        InnerPoll<T, E>,
    ))
        requires
            !(old(self).phase is Terminal),
            old(self).start_ms <= now_ms,
        ensures
            *final(self) == old(self).step_state(inner.is_pending()),
            r.0@ =~= old(self).step_events(now_ms, inner.is_pending()),
            r.1 == inner,
    {
        let mut events: Vec<LogEvent> = Vec::new();
        if self.phase == Phase::Created {
            events.push(LogEvent::Start { method: self.method.clone(), path: self.path.clone() });
        }
        let pending = match &inner {
            InnerPoll::Pending => true,
            InnerPoll::Ready(_) => false,
        };
        if pending {
            self.phase = Phase::InProgress;
        } else {
            let elapsed_ms = now_ms - self.start_ms;
            events.push(
                LogEvent::Complete {
                    method: self.method.clone(),
                    path: self.path.clone(),
                    elapsed_ms,
                },
            );
            self.phase = Phase::Terminal;
        }
        (events, inner)
    }
}

} // verus!
