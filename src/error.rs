//! Errors of the aggregator.

use crate::messages::{TaskId, TransitionFailure};
use vstd::prelude::*;

verus! {

/// Client-visible protocol errors.
#[derive(Clone, Debug)]
pub enum DapAbort {
    /// The task is unknown, or may not be provisioned.
    InvalidTask { detail: String, task_id: TaskId },
    /// The batch selector overlaps a batch that was already collected.
    BatchOverlap,
    /// The message could not be understood.
    InvalidMessage { detail: String },
}

/// An error of the aggregator.
#[derive(Clone, Debug)]
pub enum DapError {
    /// An internal error, surfaced with an opaque detail.
    Fatal(String),
    /// A protocol error.
    Abort(DapAbort),
    /// A per-report failure.
    Transition(TransitionFailure),
}

} // verus!
