use zjs::event_loop::{settlement_trace, LoopStep};
use zjs::registry::TokioAsyncTaskManager;
use zjs::task_id::{generate_task_id, TaskIdCounter};
use zjs::values::{AsyncTaskMessage, AsyncTaskResult, AsyncTaskValue};

#[test]
fn task_ids_count_up_from_zero() {
    let mut counter = TaskIdCounter::new();
    assert_eq!(generate_task_id(&mut counter), 0);
    assert_eq!(generate_task_id(&mut counter), 1);
    assert_eq!(generate_task_id(&mut counter), 2);
}

#[test]
fn registration_binds_one_resolver_per_task() {
    let mut registry = TokioAsyncTaskManager::new();
    assert_eq!(registry.pending_count(), 0);
    let a = registry.register_task(101);
    let b = registry.register_task(202);
    assert_ne!(a, b);
    assert_eq!(registry.pending_count(), 2);
}

#[test]
fn settlement_removes_id_and_resolver_together() {
    let mut registry = TokioAsyncTaskManager::new();
    let id = registry.register_task(555);
    assert_eq!(registry.pending_count(), 1);
    let settle = registry.handle_message(AsyncTaskMessage {
        task_id: id,
        payload: AsyncTaskResult::Resolve(AsyncTaskValue::Number(7)),
    });
    let settle = settle.expect("a pending task settles");
    assert_eq!(settle.task_id, id);
    assert_eq!(settle.resolver_slot, 555);
    assert!(matches!(
        settle.payload,
        AsyncTaskResult::Resolve(AsyncTaskValue::Number(7))
    ));
    assert_eq!(registry.pending_count(), 0);
    // a second completion for the same task finds nothing to settle
    let again = registry.handle_message(AsyncTaskMessage {
        task_id: id,
        payload: AsyncTaskResult::Resolve(AsyncTaskValue::Undefined),
    });
    assert!(again.is_none());
}

#[test]
fn unknown_completion_is_dropped_silently() {
    let mut registry = TokioAsyncTaskManager::new();
    let settle = registry.handle_message(AsyncTaskMessage {
        task_id: 99,
        payload: AsyncTaskResult::Reject(AsyncTaskValue::Undefined),
    });
    assert!(settle.is_none());
    assert_eq!(registry.pending_count(), 0);
}

#[test]
fn settlements_follow_completion_order_not_creation_order() {
    let mut registry = TokioAsyncTaskManager::new();
    let first_created = registry.register_task(11);
    let second_created = registry.register_task(22);
    // the second future finishes first: its message arrives first
    let arrivals = vec![
        AsyncTaskMessage {
            task_id: second_created,
            payload: AsyncTaskResult::Resolve(AsyncTaskValue::Number(2)),
        },
        AsyncTaskMessage {
            task_id: first_created,
            payload: AsyncTaskResult::Resolve(AsyncTaskValue::Number(1)),
        },
    ];
    let settlements = registry.run_event_loop(arrivals);
    assert_eq!(settlements.len(), 2);
    assert_eq!(settlements[0].task_id, second_created);
    assert_eq!(settlements[0].resolver_slot, 22);
    assert_eq!(settlements[1].task_id, first_created);
    assert_eq!(settlements[1].resolver_slot, 11);
    assert_eq!(registry.pending_count(), 0);
}

#[test]
fn each_settlement_is_followed_by_its_checkpoint() {
    let mut registry = TokioAsyncTaskManager::new();
    let a = registry.register_task(11);
    let b = registry.register_task(22);
    let arrivals = vec![
        AsyncTaskMessage {
            task_id: b,
            payload: AsyncTaskResult::Resolve(AsyncTaskValue::Number(2)),
        },
        AsyncTaskMessage {
            task_id: a,
            payload: AsyncTaskResult::Resolve(AsyncTaskValue::Number(1)),
        },
    ];
    let settlements = registry.run_event_loop(arrivals);
    let trace = settlement_trace(&settlements);
    // B's continuations run, at its checkpoint, before A settles
    assert_eq!(
        trace,
        vec![
            LoopStep::Settle(b),
            LoopStep::Checkpoint,
            LoopStep::Settle(a),
            LoopStep::Checkpoint,
        ]
    );
}

#[test]
fn duplicate_completions_settle_once() {
    let mut registry = TokioAsyncTaskManager::new();
    let id = registry.register_task(33);
    let arrivals = vec![
        AsyncTaskMessage {
            task_id: id,
            payload: AsyncTaskResult::Resolve(AsyncTaskValue::Number(1)),
        },
        AsyncTaskMessage {
            task_id: id,
            payload: AsyncTaskResult::Resolve(AsyncTaskValue::Number(2)),
        },
    ];
    let settlements = registry.run_event_loop(arrivals);
    assert_eq!(settlements.len(), 1);
    assert!(matches!(
        settlements[0].payload,
        AsyncTaskResult::Resolve(AsyncTaskValue::Number(1))
    ));
}
