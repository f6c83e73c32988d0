//! The thread that a debugger global belongs to.

use crate::id::{PipelineId, WorkerId};
use vstd::prelude::*;

verus! {

/// Whether a debugger global serves a script thread or a worker thread.
#[derive(Clone, Copy, Debug, PartialEq, Eq, Structural)]
pub enum ThreadInfo {
    /// The thread of pages and frames.
    ScriptThread,
    /// The thread of one worker.
    WorkerThread {
        worker_id: WorkerId,
        /// The pipeline of the page that created the worker. A worker thread
        /// has no pipeline namespace to allocate from, so its debugger global
        /// goes by this one.
        pipeline_id: PipelineId,
    },
}

impl ThreadInfo {
    /// The pipeline that the debugger global of this thread goes by, where
    /// the thread fixes it. On a script thread it does not: there the global
    /// gets an identifier of its own from the allocator.
    pub fn pipeline_id(&self) -> (r: Option<PipelineId>)
        ensures
            r == match *self {
                ThreadInfo::ScriptThread => None,
                ThreadInfo::WorkerThread { pipeline_id, .. } => Some(pipeline_id),
            },
    {
        match self {
            ThreadInfo::ScriptThread => None,
            ThreadInfo::WorkerThread { pipeline_id, .. } => Some(*pipeline_id),
        }
    }

    /// The worker that this thread runs; a script thread runs none.
    pub fn worker_id(&self) -> (r: Option<WorkerId>)
        ensures
            r == match *self {
                ThreadInfo::ScriptThread => None,
                ThreadInfo::WorkerThread { worker_id, .. } => Some(worker_id),
            },
    {
        match self {
            ThreadInfo::ScriptThread => None,
            ThreadInfo::WorkerThread { worker_id, .. } => Some(*worker_id),
        }
    }
}

} // verus!
