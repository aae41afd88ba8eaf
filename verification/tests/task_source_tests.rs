use script::task_source::{
    DOMManipulationTaskSource, DomTask, EventBubbles, EventCancelable, PipelineId, ScriptThreadEventCategory,
    TaskCanceller,
};

fn source() -> DOMManipulationTaskSource {
    DOMManipulationTaskSource { pipeline_id: PipelineId { namespace_id: 1, index: 5 } }
}

#[test]
fn simple_event_message() {
    let m = source().queue_simple_event(9, "close".to_string(), &TaskCanceller { cancelled: Some(3) });
    assert!(matches!(m.category, ScriptThreadEventCategory::ScriptEvent));
    assert_eq!(m.task.cancelled, Some(3));
    match m.task.inner {
        DomTask::SimpleEvent { target, name } => {
            assert_eq!(target, 9);
            assert_eq!(name, "close");
        }
        _ => panic!("expected a simple event"),
    }
    let p = m.pipeline_id.unwrap();
    assert_eq!((p.namespace_id, p.index), (1, 5));
}

#[test]
fn event_message_keeps_flags() {
    let m = source().queue_event(
        4,
        "toggle".to_string(),
        EventBubbles::DoesNotBubble,
        EventCancelable::Cancelable,
        &TaskCanceller { cancelled: None },
    );
    assert_eq!(m.task.cancelled, None);
    match m.task.inner {
        DomTask::Event { target, name, bubbles, cancelable } => {
            assert_eq!(target, 4);
            assert_eq!(name, "toggle");
            assert!(matches!(bubbles, EventBubbles::DoesNotBubble));
            assert!(matches!(cancelable, EventCancelable::Cancelable));
        }
        _ => panic!("expected an event"),
    }
}

#[test]
fn wrap_task_carries_flag() {
    let c = TaskCanceller { cancelled: Some(8) };
    let t = c.wrap_task(DomTask::SimpleEvent { target: 1, name: "x".to_string() });
    assert_eq!(t.cancelled, Some(8));
}

#[test]
fn debug_text() {
    assert_eq!(source().debug_text(), "DOMManipulationTaskSource(...)");
}
