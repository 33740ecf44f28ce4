//! A request-instrumentation decorator: wraps an asynchronous service and
//! adds structured start/completion logging with elapsed-time measurement,
//! without changing the wrapped service's observable behaviour.
//!
//! The decorator's decisions — which log events to emit at each poll of the
//! composed future, how the future's phase evolves, and what the rendered log
//! lines say — are verified here. The surrounding runtime plumbing (the HTTP
//! listener, the task scheduler, the clock and the logging sink) hands this
//! library plain values and performs its decisions.

pub mod event;
pub mod future;
pub mod service;
pub mod trace;

pub use crate::event::LogEvent;
pub use crate::future::InnerPoll;
pub use crate::future::LoggingFuture;
pub use crate::future::Phase;
pub use crate::service::HelloWorld;
pub use crate::service::Logging;
