//! The logging decorator and the demo service it is exercised with.
//!
//! `Logging` wraps one inner service and exposes the same two-operation
//! capability — a readiness check and a request dispatch — so it can itself
//! be wrapped again or substituted wherever the inner service is expected.
//! It adds no admission control and no failure modes of its own: readiness
//! is the inner service's readiness, and dispatch only captures the
//! request's method, path and a start timestamp before the inner service
//! takes over.

use vstd::prelude::*;

use crate::future::InnerPoll;
use crate::future::LoggingFuture;
use crate::future::Phase;

verus! {

/// The logging decorator: holds exactly one inner service and instruments
/// every request dispatched through it.
#[derive(Clone, Copy)]
pub struct Logging<S> {
    /// The wrapped service. The decorator forwards both operations to it.
    pub inner: S,
}

impl<S> Logging<S> {
    /// Wraps `inner` in the decorator.
    pub fn new(inner: S) -> (r: Logging<S>)
        ensures
            r.inner == inner,
    {
        Logging { inner }
    }

    /// The decorator's readiness, given the inner service's readiness at
    /// the same instant.
    ///
    /// The decorator performs no independent admission control: its answer
    /// is exactly the inner service's answer, with no buffering and no
    /// added backpressure, so it introduces no readiness skew.
    pub fn poll_ready<E>(&self, inner_readiness: InnerPoll<(), E>) -> (r: InnerPoll<(), E>)
        ensures
            r == inner_readiness,
    {
        inner_readiness
    }

    /// Dispatches one request: synchronous setup only.
    ///
    /// Captures the request's method token and path as an immutable
    /// snapshot, takes the current reading of the monotonic clock as the
    /// start timestamp, and returns the composed future's state, not yet
    /// polled. No side effect happens until that future is polled, and the
    /// inner service's own dispatch is not interfered with.
    pub fn call(&self, method: String, path: String, now_ms: u64) -> (f: LoggingFuture)
        ensures
            f == (LoggingFuture { method, path, start_ms: now_ms, phase: Phase::Created }),
    {
        LoggingFuture::new(method, path, now_ms)
    }
}

/// The demo service: always ready, and answers every request at once with a
/// fixed greeting body.
pub struct HelloWorld;

impl HelloWorld {
    /// The demo service is ready whenever it is asked.
    pub fn poll_ready<E>(&self) -> (r: InnerPoll<(), E>)
        ensures
            r == InnerPoll::<(), E>::Ready(Result::<(), E>::Ok(())),
    {
        InnerPoll::Ready(Ok(()))
    }

    /// The fixed response body the demo service answers with.
    pub fn call(&self) -> (r: String)
        ensures
            r@ == "HelloWorld"@,
    {
        String::from_str("HelloWorld")
    }
}

} // verus!
