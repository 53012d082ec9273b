//! An in-process log-shipping engine: producers hand timestamped log lines to
//! a single consumer, which batches them under size and age limits, serializes
//! each batch to the Loki push wire format, and schedules failed submissions
//! for exponential-backoff retry through a time-ordered delay queue.

use vstd::prelude::*;

pub mod batch;
pub mod fmt;
pub mod logfmt;
pub mod queue;
pub mod task;
pub mod text;
pub mod wire;

pub use crate::fmt::{FormatLog, LokiFormatter};
pub use crate::logfmt::{LogfmtAutoFields, LogfmtFormatter};
pub use crate::task::LokiTaskMsg;

verus! {

/// How the engine treats a batch whose submission failed.
#[derive(Clone, Copy, PartialEq, Eq, Structural, Debug)]
pub enum FailurePolicy {
    /// Discard the batch on any failure.
    Drop,
    /// Re-enqueue a transiently failed batch up to this many times.
    Retry(usize),
}

} // verus!
