//! The DOM manipulation task source: the messages by which it queues event
//! tasks to the script thread of its pipeline.
use vstd::prelude::*;

verus! {

/// Identifies a pipeline: its namespace and its index in that namespace.
#[derive(Clone, Copy)]
pub struct PipelineId {
    pub namespace_id: u32,
    pub index: u32,
}

/// Whether a queued event bubbles.
#[derive(Clone, Copy)]
pub enum EventBubbles {
    Bubbles,
    DoesNotBubble,
}

/// Whether a queued event is cancelable.
#[derive(Clone, Copy)]
pub enum EventCancelable {
    Cancelable,
    NotCancelable,
}

/// The category under which the script thread accounts for a task.
#[derive(Clone, Copy)]
pub enum ScriptThreadEventCategory {
    ScriptEvent,
}

/// A task that fires an event at a target. The target is the handle under
/// which the caller keeps it alive until the task runs.
pub enum DomTask {
    /// Fires an event with the given name and flags.
    Event { target: u64, name: String, bubbles: EventBubbles, cancelable: EventCancelable },
    /// Fires a simple event: it does not bubble and is not cancelable.
    SimpleEvent { target: u64, name: String },
}

/// The event that a task fires when it runs.
pub ghost struct FiredEvent {
    pub target: u64,
    pub name: Seq<char>,
    pub bubbles: EventBubbles,
    pub cancelable: EventCancelable,
}

/// The event a task fires: a simple event neither bubbles nor is cancelable.
pub open spec fn fired_event(task: DomTask) -> FiredEvent {
    match task {
        DomTask::Event { target, name, bubbles, cancelable } => FiredEvent {
            target,
            name: name@,
            bubbles,
            cancelable,
        },
        DomTask::SimpleEvent { target, name } => FiredEvent {
            target,
            name: name@,
            bubbles: EventBubbles::DoesNotBubble,
            cancelable: EventCancelable::NotCancelable,
        },
    }
}

/// The cancellation flag of a global: the handle of the shared flag, if the
/// global has one.
pub struct TaskCanceller {
    pub cancelled: Option<u64>,
}

/// A task together with the flag that cancels it.
pub struct CancellableTask {
    pub cancelled: Option<u64>,
    pub inner: DomTask,
}

/// The message that carries a task to the script thread.
pub struct ScriptMsg {
    pub category: ScriptThreadEventCategory,
    pub task: CancellableTask,
    pub pipeline_id: Option<PipelineId>,
}

/// The message by which `source` queues `task`, cancelled by `canceller`.
pub open spec fn task_message(source: DOMManipulationTaskSource, task: DomTask, canceller: TaskCanceller) -> ScriptMsg {
    ScriptMsg {
        category: ScriptThreadEventCategory::ScriptEvent,
        task: CancellableTask { cancelled: canceller.cancelled, inner: task },
        pipeline_id: Some(source.pipeline_id),
    }
}

/// What a queued message carries: the task exactly as given, the
/// canceller's flag, the task source's pipeline and the script-event
/// category. An event task fires its own target, name and flags; a simple
/// event fires its target and name without bubbling or cancelling.
pub proof fn lemma_task_message_law(
    source: DOMManipulationTaskSource,
    task: DomTask,
    canceller: TaskCanceller,
    target: u64,
    name: String,
    bubbles: EventBubbles,
    cancelable: EventCancelable,
)
    ensures
        task_message(source, task, canceller).task.inner == task,
        task_message(source, task, canceller).task.cancelled == canceller.cancelled,
        task_message(source, task, canceller).pipeline_id == Some(source.pipeline_id),
        task_message(source, task, canceller).category is ScriptEvent,
        fired_event(DomTask::Event { target, name, bubbles, cancelable }) == (FiredEvent {
            target,
            name: name@,
            bubbles,
            cancelable,
        }),
        fired_event(DomTask::SimpleEvent { target, name }) == (FiredEvent {
            target,
            name: name@,
            bubbles: EventBubbles::DoesNotBubble,
            cancelable: EventCancelable::NotCancelable,
        }),
{
}

/// Queueing a simple event is queueing an event that does not bubble and is
/// not cancelable: both messages go to the same pipeline, under the same
/// category and canceller, and fire the same event.
pub proof fn lemma_simple_event_is_plain_event(
    source: DOMManipulationTaskSource,
    target: u64,
    name: String,
    canceller: TaskCanceller,
)
    ensures
        ({
            let simple = task_message(source, DomTask::SimpleEvent { target, name }, canceller);
            let plain = task_message(
                source,
                DomTask::Event {
                    target,
                    name,
                    bubbles: EventBubbles::DoesNotBubble,
                    cancelable: EventCancelable::NotCancelable,
                },
                canceller,
            );
            &&& simple.category == plain.category
            &&& simple.pipeline_id == plain.pipeline_id
            &&& simple.task.cancelled == plain.task.cancelled
            &&& fired_event(simple.task.inner) == fired_event(plain.task.inner)
        }),
{
}

/// The DOM manipulation task source of a pipeline. The channel to the script
/// thread stays with the caller, which sends the messages built here.
#[derive(Clone, Copy)]
pub struct DOMManipulationTaskSource {
    pub pipeline_id: PipelineId,
}

impl TaskCanceller {
    /// The task wrapped so that this canceller's flag cancels it.
    pub fn wrap_task(&self, task: DomTask) -> (c: CancellableTask)
        ensures
            c == (CancellableTask { cancelled: self.cancelled, inner: task }),
    {
        CancellableTask { cancelled: self.cancelled, inner: task }
    }
}

impl DOMManipulationTaskSource {
    /// The message that queues `task`, cancelled by `canceller`, as a script
    /// event of the pipeline of the task source.
    pub fn queue_with_canceller(&self, task: DomTask, canceller: &TaskCanceller) -> (m: ScriptMsg)
        ensures
            m == task_message(*self, task, *canceller),
    {
        ScriptMsg {
            category: ScriptThreadEventCategory::ScriptEvent,
            task: canceller.wrap_task(task),
            pipeline_id: Some(self.pipeline_id),
        }
    }

    /// The message that queues firing the event `name` with the given flags
    /// at `target`, cancelled by the global's canceller.
    pub fn queue_event(
        &self,
        target: u64,
        name: String,
        bubbles: EventBubbles,
        cancelable: EventCancelable,
        canceller: &TaskCanceller,
    ) -> (m: ScriptMsg)
        ensures
            m == task_message(*self, DomTask::Event { target, name, bubbles, cancelable }, *canceller),
    {
        let task = DomTask::Event { target, name, bubbles, cancelable };
        self.queue_with_canceller(task, canceller)
    }

    /// The message that queues firing the simple event `name` at `target`,
    /// cancelled by the global's canceller.
    pub fn queue_simple_event(&self, target: u64, name: String, canceller: &TaskCanceller) -> (m: ScriptMsg)
        ensures
            m == task_message(*self, DomTask::SimpleEvent { target, name }, *canceller),
    {
        self.queue_with_canceller(DomTask::SimpleEvent { target, name }, canceller)
    }

    /// The text by which the task source shows itself in debug output.
    pub fn debug_text(&self) -> (r: String)
        ensures
            r@ == "DOMManipulationTaskSource(...)"@,
    {
        String::from_str("DOMManipulationTaskSource(...)")
    }
}

} // verus!
