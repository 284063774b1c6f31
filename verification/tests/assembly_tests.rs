use build_scan::assembly::assemble;
use build_scan::events::{
    DecodedEvent, RawEvent, TaskFinishedEvent, TaskIdentityEvent, TaskStartedEvent,
};
use build_scan::framing::FramedEvent;
use build_scan::models::TaskOutcome;

fn frame(wire_id: u16, ts: i64) -> FramedEvent {
    FramedEvent { wire_id, timestamp: ts, ordinal: 0, body: vec![] }
}

#[test]
fn test_assemble_single_task() {
    let events = vec![
        (
            frame(117, 1000),
            DecodedEvent::TaskIdentity(TaskIdentityEvent {
                id: 1,
                build_path: ":".into(),
                task_path: ":app:build".into(),
            }),
        ),
        (
            frame(1563, 2000),
            DecodedEvent::TaskStarted(TaskStartedEvent {
                id: 1,
                build_path: ":".into(),
                path: ":app:build".into(),
                class_name: Some("org.gradle.DefaultTask".into()),
            }),
        ),
        (
            frame(2074, 3000),
            DecodedEvent::TaskFinished(TaskFinishedEvent {
                id: 1,
                path: ":app:build".into(),
                outcome: Some(3),
                cacheable: Some(false),
                caching_disabled_reason_category: None,
                caching_disabled_explanation: None,
                origin_build_invocation_id: None,
                origin_build_cache_key: None,
                actionable: Some(false),
                skip_reason_message: None,
            }),
        ),
    ];
    let payload = assemble(events);
    assert_eq!(payload.tasks.len(), 1);
    let task = &payload.tasks[0];
    assert_eq!(task.task_path, ":app:build");
    assert_eq!(task.started_at, Some(2000));
    assert_eq!(task.finished_at, Some(3000));
    assert_eq!(task.duration_ms, Some(1000));
    assert!(matches!(task.outcome, Some(TaskOutcome::Success)));
    assert!(task.inputs.is_none());
}

#[test]
fn assemble_counts_raw_events_sorted_by_wire_id() {
    let events = vec![
        (frame(9000, 0), DecodedEvent::Raw(RawEvent { wire_id: 9000, body: vec![1] })),
        (frame(700, 0), DecodedEvent::Raw(RawEvent { wire_id: 700, body: vec![] })),
        (frame(9000, 0), DecodedEvent::Raw(RawEvent { wire_id: 9000, body: vec![2] })),
    ];
    let payload = assemble(events);
    assert!(payload.tasks.is_empty());
    assert_eq!(payload.raw_events.len(), 2);
    assert_eq!(payload.raw_events[0].wire_id, 700);
    assert_eq!(payload.raw_events[0].count, 1);
    assert_eq!(payload.raw_events[1].wire_id, 9000);
    assert_eq!(payload.raw_events[1].count, 2);
}

#[test]
fn assemble_drops_orphan_finish() {
    let events = vec![
        (
            frame(2074, 3000),
            DecodedEvent::TaskFinished(TaskFinishedEvent {
                id: 42,
                path: ":lonely".into(),
                outcome: Some(3),
                cacheable: Some(false),
                caching_disabled_reason_category: None,
                caching_disabled_explanation: None,
                origin_build_invocation_id: None,
                origin_build_cache_key: None,
                actionable: Some(false),
                skip_reason_message: None,
            }),
        ),
    ];
    let payload = assemble(events);
    assert!(payload.tasks.is_empty());
    assert!(payload.raw_events.is_empty());
}

#[test]
fn assemble_sorts_tasks_by_id() {
    let events = vec![
        (
            frame(117, 0),
            DecodedEvent::TaskIdentity(TaskIdentityEvent {
                id: 9,
                build_path: ":".into(),
                task_path: ":b".into(),
            }),
        ),
        (
            frame(117, 0),
            DecodedEvent::TaskIdentity(TaskIdentityEvent {
                id: -3,
                build_path: ":".into(),
                task_path: ":a".into(),
            }),
        ),
        (
            frame(117, 0),
            DecodedEvent::TaskIdentity(TaskIdentityEvent {
                id: 4,
                build_path: ":".into(),
                task_path: ":c".into(),
            }),
        ),
    ];
    let payload = assemble(events);
    let ids: Vec<i64> = payload.tasks.iter().map(|t| t.id).collect();
    assert_eq!(ids, vec![-3, 4, 9]);
}

#[test]
fn assemble_keeps_last_identity_for_duplicate_id() {
    let events = vec![
        (
            frame(117, 0),
            DecodedEvent::TaskIdentity(TaskIdentityEvent {
                id: 7,
                build_path: ":".into(),
                task_path: ":old".into(),
            }),
        ),
        (
            frame(117, 0),
            DecodedEvent::TaskIdentity(TaskIdentityEvent {
                id: 7,
                build_path: ":".into(),
                task_path: ":new".into(),
            }),
        ),
    ];
    let payload = assemble(events);
    assert_eq!(payload.tasks.len(), 1);
    assert_eq!(payload.tasks[0].task_path, ":new");
}
