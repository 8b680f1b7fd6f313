use std::sync::{Arc, Barrier, Mutex};

use platform_09_26::domain::{
    ActivityType, AttemptMetadata, PoolId, RetryMetadata, Task, TaskId, TaskLimits, TaskStatus,
    TenantId,
};
use platform_09_26::storage::{InMemoryTaskStore, TaskStoreError};
use platform_09_26::time::{Duration, SystemTime};
use platform_09_26::worker::WorkerId;

fn current_time() -> SystemTime {
    let elapsed = std::time::SystemTime::now()
        .duration_since(std::time::UNIX_EPOCH)
        .unwrap();
    SystemTime::from_parts(elapsed.as_secs() as i64, elapsed.subsec_nanos())
}

fn after(start: SystemTime, secs: u64) -> SystemTime {
    start.checked_add(Duration::from_secs(secs)).unwrap()
}

fn pool() -> PoolId {
    PoolId("shared".into())
}

fn worker(name: &str) -> WorkerId {
    WorkerId(name.into())
}

fn task_id() -> TaskId {
    TaskId("task-1".into())
}

fn pending_task(
    id: &str,
    pool_id: &str,
    now: SystemTime,
    max_retries: u32,
    max_execution_time: Duration,
    deadline: SystemTime,
) -> Task {
    Task {
        id: TaskId(id.into()),
        tenant_id: TenantId("tenant-1".into()),
        pool_id: PoolId(pool_id.into()),
        activity_type: ActivityType("echo".into()),
        input: b"hello".to_vec(),
        workflow_id: None,
        priority: 10,
        created_at: now,
        limits: TaskLimits {
            max_execution_time,
            deadline,
        },
        retry: RetryMetadata {
            retry_count: 0,
            max_retries,
        },
        attempt: AttemptMetadata {
            attempts_started: 0,
            last_attempt_at: None,
        },
        status: TaskStatus::Pending {
            expires_at: deadline,
        },
    }
}

/// A store with one task, created now, that may run for ten seconds at a time
/// and a minute in all, with two retries.
fn store_with_one_task(now: SystemTime) -> InMemoryTaskStore {
    let mut store = InMemoryTaskStore::new();
    store
        .submit(pending_task(
            "task-1",
            "shared",
            now,
            2,
            Duration::from_secs(10),
            after(now, 60),
        ))
        .unwrap();
    store
}

fn expiry(task: &Task) -> SystemTime {
    match &task.status {
        TaskStatus::Leased(lease) => lease.expires_at,
        _ => panic!("task should be leased"),
    }
}

#[test]
fn a_task_is_leased_to_exactly_one_worker() {
    let now = current_time();
    let store = Arc::new(Mutex::new(InMemoryTaskStore::new()));
    store
        .lock()
        .unwrap()
        .submit(pending_task(
            "task-1",
            "shared",
            now,
            3,
            Duration::from_secs(30),
            after(now, 60),
        ))
        .unwrap();

    let start = Arc::new(Barrier::new(2));
    let first_store = store.clone();
    let first_start = start.clone();
    let runtime = tokio::runtime::Builder::new_current_thread().build().unwrap();
    let leases = runtime.block_on(async move {
        let first = tokio::task::spawn_blocking(move || {
            first_start.wait();
            first_store
                .lock()
                .unwrap()
                .lease_next(
                    &PoolId("shared".into()),
                    &WorkerId("worker-1".into()),
                    1,
                    now,
                )
                .unwrap()
        });
        let second_store = store.clone();
        let second = tokio::task::spawn_blocking(move || {
            start.wait();
            second_store
                .lock()
                .unwrap()
                .lease_next(
                    &PoolId("shared".into()),
                    &WorkerId("worker-2".into()),
                    1,
                    now,
                )
                .unwrap()
        });
        [first.await.unwrap(), second.await.unwrap()]
    });

    assert_eq!(leases.iter().flatten().count(), 1);
}

#[test]
fn workers_in_one_pool_lease_different_tasks() {
    let now = current_time();
    let mut store = InMemoryTaskStore::new();
    for id in ["task-1", "task-2"] {
        store
            .submit(pending_task(
                id,
                "shared",
                now,
                3,
                Duration::from_secs(30),
                after(now, 60),
            ))
            .unwrap();
    }

    let first = store
        .lease_next(
            &PoolId("shared".into()),
            &WorkerId("worker-1".into()),
            1,
            now,
        )
        .unwrap()
        .unwrap();
    let second = store
        .lease_next(
            &PoolId("shared".into()),
            &WorkerId("worker-2".into()),
            1,
            now,
        )
        .unwrap()
        .unwrap();

    assert_ne!(first.id, second.id);
    assert!(matches!(
        first.status,
        TaskStatus::Leased(ref lease) if lease.owner_id.0 == "worker-1"
    ));
    assert!(matches!(
        second.status,
        TaskStatus::Leased(ref lease) if lease.owner_id.0 == "worker-2"
    ));
}

#[test]
fn an_expired_lease_retries_then_can_complete() {
    let now = current_time();
    let mut store = InMemoryTaskStore::new();
    store
        .submit(pending_task(
            "task-1",
            "shared",
            now,
            2,
            Duration::from_secs(10),
            after(now, 60),
        ))
        .unwrap();

    let first_lease = store
        .lease_next(
            &PoolId("shared".into()),
            &WorkerId("worker-1".into()),
            1,
            now,
        )
        .unwrap()
        .unwrap();
    let lease_expiry = match first_lease.status {
        TaskStatus::Leased(lease) => lease.expires_at,
        _ => panic!("task should be leased"),
    };

    store.recover_expired(lease_expiry).unwrap();
    let retried = store.get(&TaskId("task-1".into())).unwrap();
    assert_eq!(retried.retry.retry_count, 1);
    assert!(matches!(retried.status, TaskStatus::Pending { .. }));

    let second_lease = store
        .lease_next(
            &PoolId("shared".into()),
            &WorkerId("worker-2".into()),
            1,
            lease_expiry,
        )
        .unwrap()
        .unwrap();
    store
        .complete(
            &second_lease.id,
            &WorkerId("worker-2".into()),
            1,
            lease_expiry,
        )
        .unwrap();

    assert!(matches!(
        store.get(&TaskId("task-1".into())).unwrap().status,
        TaskStatus::Completed { .. }
    ));
}

#[test]
fn a_task_fails_after_exhausting_its_retries() {
    let now = current_time();
    let mut store = InMemoryTaskStore::new();
    store
        .submit(pending_task(
            "task-1",
            "shared",
            now,
            1,
            Duration::from_secs(10),
            after(now, 60),
        ))
        .unwrap();

    let first = store
        .lease_next(
            &PoolId("shared".into()),
            &WorkerId("worker-1".into()),
            1,
            now,
        )
        .unwrap()
        .unwrap();
    let first_expiry = match first.status {
        TaskStatus::Leased(lease) => lease.expires_at,
        _ => panic!("task should be leased"),
    };
    store.recover_expired(first_expiry).unwrap();

    let second = store
        .lease_next(
            &PoolId("shared".into()),
            &WorkerId("worker-2".into()),
            1,
            first_expiry,
        )
        .unwrap()
        .unwrap();
    let second_expiry = match second.status {
        TaskStatus::Leased(lease) => lease.expires_at,
        _ => panic!("task should be leased"),
    };
    store.recover_expired(second_expiry).unwrap();

    assert!(matches!(
        store.get(&TaskId("task-1".into())).unwrap().status,
        TaskStatus::Failed { .. }
    ));
}

#[test]
fn a_renewal_never_extends_past_the_total_task_deadline() {
    let now = current_time();
    let deadline = after(now, 5);
    let mut store = InMemoryTaskStore::new();
    store
        .submit(pending_task(
            "task-1",
            "shared",
            now,
            3,
            Duration::from_secs(4),
            deadline,
        ))
        .unwrap();

    let leased = store
        .lease_next(
            &PoolId("shared".into()),
            &WorkerId("worker-1".into()),
            1,
            now,
        )
        .unwrap()
        .unwrap();
    let initial_expiry = match leased.status {
        TaskStatus::Leased(lease) => lease.expires_at,
        _ => panic!("task should be leased"),
    };
    assert_eq!(initial_expiry, after(now, 4));

    let renewed = store
        .renew(
            &TaskId("task-1".into()),
            &WorkerId("worker-1".into()),
            1,
            after(now, 3),
        )
        .unwrap();
    assert!(matches!(
        renewed.status,
        TaskStatus::Leased(ref lease) if lease.expires_at == deadline
    ));
}

#[test]
fn reaching_the_total_task_deadline_causes_final_failure() {
    let now = current_time();
    let deadline = after(now, 5);
    let mut store = InMemoryTaskStore::new();
    store
        .submit(pending_task(
            "task-1",
            "shared",
            now,
            3,
            Duration::from_secs(30),
            deadline,
        ))
        .unwrap();

    store
        .lease_next(
            &PoolId("shared".into()),
            &WorkerId("worker-1".into()),
            1,
            now,
        )
        .unwrap()
        .unwrap();
    store.recover_expired(deadline).unwrap();

    assert!(matches!(
        store.get(&TaskId("task-1".into())).unwrap().status,
        TaskStatus::Failed { .. }
    ));
}

#[test]
fn a_submitted_task_is_found_as_it_was() {
    let now = SystemTime::from_parts(1_000, 0);
    let mut store = InMemoryTaskStore::default();
    assert_eq!(store.get(&task_id()), None);
    let task = pending_task(
        "task-1",
        "shared",
        now,
        2,
        Duration::from_secs(10),
        after(now, 60),
    );
    assert_eq!(store.submit(task.clone()), Ok(()));
    assert_eq!(store.get(&task_id()), Some(task));
    assert_eq!(store.get(&TaskId("task-2".into())), None);
}

#[test]
fn a_second_task_with_the_same_identity_is_refused() {
    let now = SystemTime::from_parts(1_000, 0);
    let mut store = store_with_one_task(now);
    let mut other = pending_task(
        "task-1",
        "elsewhere",
        now,
        0,
        Duration::from_secs(1),
        after(now, 2),
    );
    other.priority = 99;
    assert_eq!(
        store.submit(other),
        Err(TaskStoreError::DuplicateTask(task_id()))
    );
    assert_eq!(store.get(&task_id()).unwrap().pool_id, pool());
}

#[test]
fn a_task_without_execution_time_is_refused() {
    let now = SystemTime::from_parts(1_000, 0);
    let mut store = InMemoryTaskStore::new();
    let task = pending_task(
        "task-1",
        "shared",
        now,
        2,
        Duration::from_secs(0),
        after(now, 60),
    );
    assert_eq!(
        store.submit(task),
        Err(TaskStoreError::InvalidTask(
            "max execution time must be greater than zero".into()
        ))
    );
    assert_eq!(store.get(&task_id()), None);
}

#[test]
fn a_task_that_is_not_pending_is_refused_before_anything_else() {
    let now = SystemTime::from_parts(1_000, 0);
    let mut store = store_with_one_task(now);
    let mut task = pending_task("task-1", "shared", now, 2, Duration::from_secs(0), now);
    task.status = TaskStatus::Completed { completed_at: now };
    assert_eq!(
        store.submit(task),
        Err(TaskStoreError::InvalidTask(
            "submitted tasks must be pending".into()
        ))
    );
}

#[test]
fn a_task_can_be_checked_before_it_is_submitted() {
    let now = SystemTime::from_parts(1_000, 0);
    let mut task = pending_task(
        "task-1",
        "shared",
        now,
        2,
        Duration::from_secs(10),
        after(now, 60),
    );
    assert_eq!(InMemoryTaskStore::check(&task), Ok(()));
    task.limits.max_execution_time = Duration::from_secs(0);
    assert_eq!(
        InMemoryTaskStore::check(&task),
        Err(TaskStoreError::InvalidTask(
            "max execution time must be greater than zero".into()
        ))
    );
    task.status = TaskStatus::Completed { completed_at: now };
    assert_eq!(
        InMemoryTaskStore::check(&task),
        Err(TaskStoreError::InvalidTask(
            "submitted tasks must be pending".into()
        ))
    );
}

#[test]
fn the_most_urgent_task_goes_first_then_the_oldest_then_the_first_by_name() {
    let now = SystemTime::from_parts(1_000, 0);
    let mut store = InMemoryTaskStore::new();
    let entries = [
        ("b-young", 10, 5),
        ("z-old", 10, 1),
        ("b-old", 10, 1),
        ("a-low", 9, 0),
        ("z-high", 11, 9),
        ("b-old-too", 10, 1),
    ];
    for (id, priority, created) in entries {
        let mut task = pending_task(
            id,
            "shared",
            SystemTime::from_parts(created, 0),
            2,
            Duration::from_secs(10),
            after(now, 60),
        );
        task.priority = priority;
        store.submit(task).unwrap();
    }
    let mut order: Vec<String> = Vec::new();
    while let Some(task) = store.lease_next(&pool(), &worker("worker-1"), 1, now).unwrap() {
        order.push(task.id.0);
    }
    assert_eq!(
        order,
        vec!["z-high", "b-old", "b-old-too", "z-old", "b-young", "a-low"]
    );
}

#[test]
fn names_are_compared_by_code_point() {
    let now = SystemTime::from_parts(1_000, 0);
    let mut store = InMemoryTaskStore::new();
    for id in ["\u{1F600}", "\u{FFFD}", "a", "", "Z", "ab"] {
        store
            .submit(pending_task(
                id,
                "shared",
                now,
                2,
                Duration::from_secs(10),
                after(now, 60),
            ))
            .unwrap();
    }
    let mut order: Vec<String> = Vec::new();
    while let Some(task) = store.lease_next(&pool(), &worker("worker-1"), 1, now).unwrap() {
        order.push(task.id.0);
    }
    let mut sorted = order.clone();
    sorted.sort();
    assert_eq!(order, sorted);
    assert_eq!(order, vec!["", "Z", "a", "ab", "\u{FFFD}", "\u{1F600}"]);
}

#[test]
fn a_leased_task_records_its_attempt() {
    let now = SystemTime::from_parts(1_000, 0);
    let mut store = store_with_one_task(now);
    let leased = store
        .lease_next(&pool(), &worker("worker-1"), 7, after(now, 1))
        .unwrap()
        .unwrap();
    assert_eq!(leased.attempt.attempts_started, 1);
    assert_eq!(leased.attempt.last_attempt_at, Some(after(now, 1)));
    match &leased.status {
        TaskStatus::Leased(lease) => {
            assert_eq!(lease.owner_id.0, "worker-1");
            assert_eq!(lease.ownership_epoch, 7);
            assert_eq!(lease.leased_at, after(now, 1));
            assert_eq!(lease.expires_at, after(now, 11));
        }
        _ => panic!("task should be leased"),
    }
    assert_eq!(store.get(&task_id()), Some(leased));
}

#[test]
fn the_count_of_attempts_stays_at_its_highest_value() {
    let now = SystemTime::from_parts(1_000, 0);
    let mut store = InMemoryTaskStore::new();
    let mut task = pending_task(
        "task-1",
        "shared",
        now,
        2,
        Duration::from_secs(10),
        after(now, 60),
    );
    task.attempt.attempts_started = u32::MAX;
    store.submit(task).unwrap();
    let leased = store
        .lease_next(&pool(), &worker("worker-1"), 1, now)
        .unwrap()
        .unwrap();
    assert_eq!(leased.attempt.attempts_started, u32::MAX);
}

#[test]
fn a_lease_ends_at_the_deadline_when_the_sum_is_out_of_range() {
    let now = SystemTime::from_parts(1_000, 0);
    let mut store = InMemoryTaskStore::new();
    store
        .submit(pending_task(
            "task-1",
            "shared",
            now,
            2,
            Duration::from_secs(u64::MAX),
            after(now, 60),
        ))
        .unwrap();
    let leased = store
        .lease_next(&pool(), &worker("worker-1"), 1, now)
        .unwrap()
        .unwrap();
    assert_eq!(expiry(&leased), after(now, 60));
}

#[test]
fn a_worker_of_another_pool_gets_nothing() {
    let now = SystemTime::from_parts(1_000, 0);
    let mut store = store_with_one_task(now);
    let given = store
        .lease_next(&PoolId("elsewhere".into()), &worker("worker-1"), 1, now)
        .unwrap();
    assert_eq!(given, None);
    assert!(matches!(
        store.get(&task_id()).unwrap().status,
        TaskStatus::Pending { .. }
    ));
}

#[test]
fn a_lease_is_exclusive_until_it_ends() {
    let now = SystemTime::from_parts(1_000, 0);
    let mut store = store_with_one_task(now);
    let leased = store
        .lease_next(&pool(), &worker("worker-1"), 1, now)
        .unwrap()
        .unwrap();
    let just_before = SystemTime::from_parts(1_009, 999_999_999);
    assert_eq!(
        store
            .lease_next(&pool(), &worker("worker-2"), 1, just_before)
            .unwrap(),
        None
    );
    assert_eq!(store.get(&task_id()), Some(leased));
    let taken = store
        .lease_next(&pool(), &worker("worker-2"), 1, after(now, 10))
        .unwrap()
        .unwrap();
    assert_eq!(taken.retry.retry_count, 1);
    assert_eq!(taken.attempt.attempts_started, 2);
    assert!(matches!(
        taken.status,
        TaskStatus::Leased(ref lease) if lease.owner_id.0 == "worker-2"
    ));
}

#[test]
fn a_stale_lease_cannot_commit() {
    let now = SystemTime::from_parts(1_000, 0);
    let mut store = store_with_one_task(now);
    let id = task_id();
    let not_leased = TaskStoreError::InvalidLease("task is not leased".into());
    assert_eq!(
        store.complete(&id, &worker("worker-1"), 1, now),
        Err(not_leased)
    );

    let leased = store
        .lease_next(&pool(), &worker("worker-1"), 1, now)
        .unwrap()
        .unwrap();
    let stale = TaskStoreError::InvalidLease("lease belongs to another worker or epoch".into());
    let other = worker("worker-2");
    let holder = worker("worker-1");
    assert_eq!(store.complete(&id, &other, 1, now), Err(stale.clone()));
    assert_eq!(store.complete(&id, &holder, 2, now), Err(stale.clone()));
    assert_eq!(store.renew(&id, &holder, 0, now), Err(stale.clone()));
    assert_eq!(store.retry(&id, &other, 1, now, "no"), Err(stale.clone()));
    assert_eq!(store.fail(&id, &other, 1, now, "no"), Err(stale));
    let late = after(now, 10);
    assert_eq!(
        store.complete(&id, &holder, 1, late),
        Err(TaskStoreError::LeaseExpired)
    );
    assert_eq!(
        store.renew(&id, &holder, 1, late),
        Err(TaskStoreError::LeaseExpired)
    );
    assert_eq!(
        store.retry(&id, &holder, 1, late, "no"),
        Err(TaskStoreError::LeaseExpired)
    );
    assert_eq!(
        store.fail(&id, &holder, 1, late, "no"),
        Err(TaskStoreError::LeaseExpired)
    );
    assert_eq!(store.get(&id), Some(leased));
}

/// A message that says whether anybody has asked for it.
struct Message(Arc<Mutex<bool>>);

impl From<Message> for String {
    fn from(message: Message) -> String {
        *message.0.lock().unwrap() = true;
        "asked for".into()
    }
}

#[test]
fn a_refused_request_does_not_ask_for_its_message() {
    let now = SystemTime::from_parts(1_000, 0);
    let mut store = store_with_one_task(now);
    let holder = worker("worker-1");
    let asked = Arc::new(Mutex::new(false));
    store
        .retry(&task_id(), &holder, 1, now, Message(asked.clone()))
        .unwrap_err();
    store
        .fail(&task_id(), &holder, 1, now, Message(asked.clone()))
        .unwrap_err();
    assert!(!*asked.lock().unwrap());
    store.lease_next(&pool(), &holder, 1, now).unwrap().unwrap();
    let failed = store
        .fail(&task_id(), &holder, 1, now, Message(asked.clone()))
        .unwrap();
    assert!(*asked.lock().unwrap());
    assert_eq!(
        failed.status,
        TaskStatus::Failed {
            failed_at: now,
            message: "asked for".into()
        }
    );
}

#[test]
fn a_task_that_is_not_there_is_not_found() {
    let now = SystemTime::from_parts(1_000, 0);
    let mut store = store_with_one_task(now);
    let missing = TaskId("task-2".into());
    let not_found = TaskStoreError::TaskNotFound(missing.clone());
    let holder = worker("worker-1");
    assert_eq!(
        store.renew(&missing, &holder, 1, now),
        Err(not_found.clone())
    );
    assert_eq!(
        store.complete(&missing, &holder, 1, now),
        Err(not_found.clone())
    );
    assert_eq!(
        store.retry(&missing, &holder, 1, now, "no"),
        Err(not_found.clone())
    );
    assert_eq!(
        store.fail(&missing, &holder, 1, now, String::from("no")),
        Err(not_found)
    );
}

#[test]
fn completion_is_committed_once() {
    let now = SystemTime::from_parts(1_000, 0);
    let mut store = store_with_one_task(now);
    let holder = worker("worker-1");
    store.lease_next(&pool(), &holder, 1, now).unwrap().unwrap();
    let done = store
        .complete(&task_id(), &holder, 1, after(now, 2))
        .unwrap();
    assert_eq!(
        done.status,
        TaskStatus::Completed {
            completed_at: after(now, 2)
        }
    );
    assert_eq!(
        store.complete(&task_id(), &holder, 1, after(now, 3)),
        Err(TaskStoreError::InvalidLease("task is not leased".into()))
    );
    assert_eq!(
        store.fail(&task_id(), &holder, 1, after(now, 3), "late"),
        Err(TaskStoreError::InvalidLease("task is not leased".into()))
    );
    assert_eq!(store.recover_expired(after(now, 600)).unwrap(), vec![]);
    assert_eq!(store.get(&task_id()), Some(done));
}

#[test]
fn a_failed_attempt_is_retried_and_then_given_up() {
    let now = SystemTime::from_parts(1_000, 0);
    let mut store = store_with_one_task(now);
    let holder = worker("worker-1");
    for round in 1..=2 {
        let moment = after(now, round);
        store
            .lease_next(&pool(), &holder, 1, moment)
            .unwrap()
            .unwrap();
        let waiting = store
            .retry(&task_id(), &holder, 1, moment, "broken")
            .unwrap();
        assert_eq!(u64::from(waiting.retry.retry_count), round);
        assert_eq!(
            waiting.status,
            TaskStatus::Pending {
                expires_at: after(now, 60)
            }
        );
    }
    let moment = after(now, 3);
    store
        .lease_next(&pool(), &holder, 1, moment)
        .unwrap()
        .unwrap();
    let failed = store
        .retry(&task_id(), &holder, 1, moment, "broken")
        .unwrap();
    assert_eq!(failed.retry.retry_count, 2);
    assert_eq!(
        failed.status,
        TaskStatus::Failed {
            failed_at: moment,
            message: "broken".into()
        }
    );
}

#[test]
fn a_task_that_is_given_up_is_not_retried() {
    let now = SystemTime::from_parts(1_000, 0);
    let mut store = store_with_one_task(now);
    let holder = worker("worker-1");
    store.lease_next(&pool(), &holder, 1, now).unwrap().unwrap();
    let failed = store
        .fail(&task_id(), &holder, 1, after(now, 1), String::from("hopeless"))
        .unwrap();
    assert_eq!(
        failed.status,
        TaskStatus::Failed {
            failed_at: after(now, 1),
            message: "hopeless".into()
        }
    );
    assert_eq!(failed.retry.retry_count, 0);
    assert_eq!(
        store.lease_next(&pool(), &holder, 1, after(now, 2)).unwrap(),
        None
    );
}

#[test]
fn recovery_gives_back_what_it_has_changed() {
    let now = SystemTime::from_parts(1_000, 0);
    let mut store = InMemoryTaskStore::new();
    for (id, secs) in [("leased", 60), ("waiting", 5), ("later", 60)] {
        store
            .submit(pending_task(
                id,
                "shared",
                now,
                2,
                Duration::from_secs(10),
                after(now, secs),
            ))
            .unwrap();
    }
    let mut first = store.get(&TaskId("leased".into())).unwrap();
    first.id = TaskId("first".into());
    first.priority = 99;
    store.submit(first).unwrap();
    store
        .lease_next(&pool(), &worker("worker-1"), 1, now)
        .unwrap()
        .unwrap();

    let moment = after(now, 10);
    let mut changed = store.recover_expired(moment).unwrap();
    changed.sort_by(|left, right| left.id.cmp(&right.id));
    let names: Vec<&str> = changed.iter().map(|task| task.id.0.as_str()).collect();
    assert_eq!(names, vec!["first", "waiting"]);
    assert_eq!(
        changed[0].status,
        TaskStatus::Pending {
            expires_at: after(now, 60)
        }
    );
    assert_eq!(changed[0].retry.retry_count, 1);
    assert_eq!(
        changed[1].status,
        TaskStatus::Failed {
            failed_at: moment,
            message: "task expired before it was leased".into()
        }
    );
    for task in &changed {
        assert_eq!(store.get(&task.id).as_ref(), Some(task));
    }
    assert_eq!(store.recover_expired(moment).unwrap(), vec![]);
}

#[test]
fn a_second_look_at_the_time_changes_nothing_more() {
    let now = SystemTime::from_parts(1_000, 0);
    let mut store = store_with_one_task(now);
    store
        .lease_next(&pool(), &worker("worker-1"), 1, now)
        .unwrap()
        .unwrap();
    assert_eq!(store.recover_expired(after(now, 10)).unwrap().len(), 1);
    let recovered = store.get(&task_id());
    assert_eq!(store.recover_expired(after(now, 10)).unwrap(), vec![]);
    assert_eq!(store.recover_expired(after(now, 3)).unwrap(), vec![]);
    assert_eq!(store.get(&task_id()), recovered);
}

#[test]
fn attempts_follow_retries() {
    let now = SystemTime::from_parts(1_000, 0);
    let mut store = store_with_one_task(now);
    for round in 0..3 {
        let waiting = store.get(&task_id()).unwrap();
        assert_eq!(waiting.attempt.attempts_started, round);
        assert_eq!(waiting.retry.retry_count, round);
        let leased = store
            .lease_next(&pool(), &worker("worker-1"), 1, after(now, u64::from(round)))
            .unwrap()
            .unwrap();
        assert_eq!(leased.attempt.attempts_started, round + 1);
        assert_eq!(leased.retry.retry_count, round);
        store
            .retry(
                &task_id(),
                &worker("worker-1"),
                1,
                after(now, u64::from(round)),
                "broken",
            )
            .unwrap();
    }
    let failed = store.get(&task_id()).unwrap();
    assert!(matches!(failed.status, TaskStatus::Failed { .. }));
    assert_eq!(failed.attempt.attempts_started, 3);
    assert_eq!(failed.retry.retry_count, 2);
}

#[test]
fn a_lease_that_ends_without_a_retry_left_fails_the_task() {
    let now = SystemTime::from_parts(1_000, 0);
    let mut store = InMemoryTaskStore::new();
    store
        .submit(pending_task(
            "task-1",
            "shared",
            now,
            0,
            Duration::from_secs(10),
            after(now, 60),
        ))
        .unwrap();
    store
        .lease_next(&pool(), &worker("worker-1"), 1, now)
        .unwrap()
        .unwrap();
    let changed = store.recover_expired(after(now, 10)).unwrap();
    assert_eq!(changed.len(), 1);
    assert_eq!(
        changed[0].status,
        TaskStatus::Failed {
            failed_at: after(now, 10),
            message: "lease expired".into()
        }
    );
}

#[test]
fn a_pending_task_expires_before_its_deadline_if_it_says_so() {
    let now = SystemTime::from_parts(1_000, 0);
    let mut store = InMemoryTaskStore::new();
    let mut task = pending_task(
        "task-1",
        "shared",
        now,
        2,
        Duration::from_secs(10),
        after(now, 60),
    );
    task.status = TaskStatus::Pending {
        expires_at: after(now, 5),
    };
    store.submit(task).unwrap();
    assert_eq!(
        store
            .lease_next(&pool(), &worker("worker-1"), 1, after(now, 5))
            .unwrap(),
        None
    );
    assert!(matches!(
        store.get(&task_id()).unwrap().status,
        TaskStatus::Failed { .. }
    ));
}

#[test]
fn ownership_epochs_follow_those_under_which_leases_are_granted() {
    let now = SystemTime::from_parts(1_000, 0);
    let mut store = store_with_one_task(now);
    for (moment, epoch) in [(now, 3), (after(now, 10), 3), (after(now, 20), 4)] {
        let leased = store
            .lease_next(&pool(), &worker("worker-1"), epoch, moment)
            .unwrap()
            .unwrap();
        assert!(matches!(
            leased.status,
            TaskStatus::Leased(ref lease) if lease.ownership_epoch == epoch
        ));
    }
}

#[test]
fn store_errors_are_put_into_words() {
    let cases = [
        (
            TaskStoreError::DuplicateTask(task_id()),
            "task already exists: task-1",
        ),
        (
            TaskStoreError::TaskNotFound(task_id()),
            "task not found: task-1",
        ),
        (TaskStoreError::InvalidTask("odd".into()), "odd"),
        (TaskStoreError::InvalidLease("old".into()), "old"),
        (TaskStoreError::LeaseExpired, "lease has expired"),
        (TaskStoreError::Unavailable, "task store is unavailable"),
    ];
    for (error, words) in cases {
        assert_eq!(error.describe(), words);
        assert_eq!(error.clone(), error);
    }
}
