//! The event that tells the listeners of a debugger global that a debuggee
//! was added.

use crate::id::{uuid_text, PipelineId, WorkerId};
use crate::text::text_of;
use crate::thread_info::ThreadInfo;
use vstd::prelude::*;

verus! {

/// How the dispatch of an event ended.
#[derive(Clone, Copy, Debug, PartialEq, Eq, Structural)]
pub enum EventStatus {
    Canceled,
    NotCanceled,
}

/// How the dispatch of an event ends: canceled exactly when the event can be
/// canceled and a listener asked for it.
pub open spec fn status_after_dispatch(cancelable: bool, default_prevented: bool) -> EventStatus {
    if cancelable && default_prevented {
        EventStatus::Canceled
    } else {
        EventStatus::NotCanceled
    }
}

/// How the dispatch of an event ends, given whether it can be canceled and
/// whether a listener asked for that.
pub fn dispatch_status(cancelable: bool, default_prevented: bool) -> (r: EventStatus)
    ensures
        r == status_after_dispatch(cancelable, default_prevented),
{
    if cancelable && default_prevented {
        EventStatus::Canceled
    } else {
        EventStatus::NotCanceled
    }
}

/// The event of a debuggee that was added: the pipeline of the debuggee, and
/// the worker that the debugger global serves, as text.
#[derive(Debug, PartialEq, Eq)]
pub struct DebuggerEvent {
    pub pipeline_id: PipelineId,
    pub worker_id: Option<String>,
}

/// The text of an optional worker identifier.
pub open spec fn worker_text(worker_id: Option<WorkerId>) -> Option<Seq<char>> {
    match worker_id {
        Some(id) => Some(uuid_text(id.0)),
        None => None,
    }
}

impl DebuggerEvent {
    /// The event for the debuggee of the pipeline `pipeline_id`, on a
    /// debugger global that serves the worker `worker_id`, if any.
    pub fn new(pipeline_id: PipelineId, worker_id: Option<WorkerId>) -> (event: DebuggerEvent)
        ensures
            event.pipeline_id == pipeline_id,
            text_of(event.worker_id) == worker_text(worker_id),
    {
        let worker_id = match worker_id {
            Some(id) => Some(id.to_text()),
            None => None,
        };
        DebuggerEvent { pipeline_id, worker_id }
    }

    /// Whether a listener can cancel the event: none can.
    pub fn cancelable(&self) -> (r: bool)
        ensures
            !r,
    {
        false
    }

    /// How the dispatch of the event ends. Whatever its listeners asked for,
    /// it is not canceled.
    pub fn status(&self, default_prevented: bool) -> (r: EventStatus)
        ensures
            r == EventStatus::NotCanceled,
    {
        dispatch_status(self.cancelable(), default_prevented)
    }
}

/// The event that a debugger global on the thread `thread_info` fires when
/// the debuggee of the pipeline `pipeline_id` is added.
pub fn add_debuggee_event(thread_info: &ThreadInfo, pipeline_id: PipelineId) -> (event:
    DebuggerEvent)
    ensures
        event.pipeline_id == pipeline_id,
        text_of(event.worker_id) == worker_text(
            match *thread_info {
                ThreadInfo::ScriptThread => None,
                ThreadInfo::WorkerThread { worker_id, .. } => Some(worker_id),
            },
        ),
{
    DebuggerEvent::new(pipeline_id, thread_info.worker_id())
}

} // verus!
