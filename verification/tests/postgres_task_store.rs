use platform_09_26::domain::{
    ActivityType, AttemptMetadata, Lease, LeaseOwnerId, PoolId, RetryMetadata, Task, TaskId,
    TaskLimits, TaskStatus, TenantId, WorkflowId,
};
use platform_09_26::storage::postgres::{
    active_attempt, attempt_key, attempt_with_id, capped_expiry, duration_from_ms, ensure_active, event_with_id,
    retry_policy, retry_values, task_from_row, transition_to_retry_or_failure, write_event,
    ActiveAttempt, EventInsert, ExpiredRow, LeasePlan, ReadyRow, TaskInsert, TaskState,
    TransitionPlan,
};
use platform_09_26::storage::{InMemoryTaskStore, PostgresTaskStore, PostgresTaskStoreError};
use platform_09_26::time::{Duration, SystemTime};
use platform_09_26::worker::WorkerId;
use serde_json::Value;

fn at(secs: i64) -> SystemTime {
    SystemTime::from_parts(secs, 0)
}

fn store() -> PostgresTaskStore {
    PostgresTaskStore::new("postgres://localhost/platform")
}

fn worker() -> WorkerId {
    WorkerId("worker-1".into())
}

fn task_id() -> TaskId {
    TaskId("task-1".into())
}

fn pending_task(id: &str, now: SystemTime, max_retries: u32, timeout: Duration) -> Task {
    let deadline = now.checked_add(Duration::from_secs(60)).unwrap();
    Task {
        id: TaskId(id.into()),
        tenant_id: TenantId("tenant-1".into()),
        pool_id: PoolId("pool-1".into()),
        activity_type: ActivityType("echo".into()),
        input: b"hello".to_vec(),
        workflow_id: Some(WorkflowId("workflow-1".into())),
        priority: 10,
        created_at: now,
        limits: TaskLimits {
            max_execution_time: timeout,
            deadline,
        },
        retry: RetryMetadata {
            retry_count: 0,
            max_retries,
        },
        attempt: AttemptMetadata {
            attempts_started: 0,
            last_attempt_at: None,
        },
        status: TaskStatus::Pending {
            expires_at: deadline,
        },
    }
}

fn row_of(added: TaskInsert) -> ReadyRow {
    ReadyRow {
        id: added.id,
        workflow_id: added.workflow_id,
        tenant_id: "tenant-1".into(),
        activity_type: added.activity_type,
        input: added.input,
        pool_id: added.pool_id,
        priority: added.priority,
        created_at: added.created_at,
        deadline: added.deadline,
        execution_timeout_ms: added.execution_timeout_ms,
        retry_policy: added.retry_policy,
        current_attempt: added.current_attempt,
    }
}

fn ready_row() -> ReadyRow {
    let task = pending_task("task-1", at(1_000), 3, Duration::from_secs(30));
    row_of(store().submit(&task).unwrap())
}

fn active(max_retries: u32, retry_count: u32) -> ActiveAttempt {
    ActiveAttempt {
        deadline: at(1_060),
        lease_expiry: at(1_030),
        execution_timeout_ms: 30_000,
        retry_policy: retry_policy(max_retries, retry_count),
    }
}

fn document(text: &str) -> Value {
    text.parse().unwrap()
}

fn assert_random_uuid(id: &str) {
    let parsed = uuid::Uuid::parse_str(id).unwrap();
    assert_eq!(parsed.get_version_num(), 4);
    assert_eq!(parsed.get_variant(), uuid::Variant::RFC4122);
    assert_eq!(id, parsed.to_string());
    assert_eq!(id.len(), 36);
}

fn assert_event(event: &EventInsert, event_type: &str, moment: SystemTime, details: &str) {
    assert_random_uuid(&event.id);
    assert_eq!(event.task_id, "task-1");
    assert_eq!(event.event_type, event_type);
    assert_eq!(event.timestamp, moment);
    assert_eq!(event.details, document(details));
}

fn invalid_task<Reply>(result: Result<Reply, PostgresTaskStoreError>) -> String {
    match result {
        Err(PostgresTaskStoreError::InvalidTask(message)) => message,
        _ => panic!("the task should be invalid"),
    }
}

#[test]
fn a_store_knows_its_database() {
    assert_eq!(store().database_url(), "postgres://localhost/platform");
    assert_eq!(
        PostgresTaskStore::new(String::from("elsewhere")).database_url(),
        "elsewhere"
    );
}

#[test]
fn a_submitted_task_becomes_a_row() {
    let mut task = pending_task("task-1", at(1_000), 3, Duration::new(30, 1_999_999));
    task.retry.retry_count = 1;
    task.attempt.attempts_started = 2;
    let row = store().submit(&task).unwrap();
    assert_eq!(row.id, "task-1");
    assert_eq!(row.workflow_id, "workflow-1");
    assert_eq!(row.activity_type, "echo");
    assert_eq!(row.input, b"hello".to_vec());
    assert_eq!(row.state, TaskState::Ready);
    assert_eq!(row.pool_id, "pool-1");
    assert_eq!(row.priority, 10);
    assert_eq!(row.available_at, at(1_000));
    assert_eq!(row.execution_timeout_ms, 30_001);
    assert_eq!(
        row.retry_policy,
        document("{\"max_retries\": 3, \"retry_count\": 1}")
    );
    assert_eq!(row.current_attempt, 2);
    assert_eq!(row.created_at, at(1_000));
    assert_eq!(row.deadline, at(1_060));
}

#[test]
fn the_count_of_attempts_keeps_its_bits() {
    let mut task = pending_task("task-1", at(1_000), 3, Duration::from_secs(30));
    for (count, stored) in [
        (0, 0),
        (0x7fff_ffff, i32::MAX),
        (0x8000_0000, i32::MIN),
        (u32::MAX, -1),
    ] {
        task.attempt.attempts_started = count;
        assert_eq!(store().submit(&task).unwrap().current_attempt, stored);
    }
}

#[test]
fn tasks_that_cannot_be_kept_are_refused_in_order() {
    let mut task = pending_task("task-1", at(1_000), 3, Duration::new(0, 999_999));
    assert_eq!(
        invalid_task(store().submit(&task)),
        "max execution time must be greater than zero"
    );
    task.limits.max_execution_time = Duration::from_secs(u64::MAX);
    assert_eq!(
        invalid_task(store().submit(&task)),
        "execution timeout is too large"
    );
    task.workflow_id = None;
    assert_eq!(
        invalid_task(store().submit(&task)),
        "PostgreSQL tasks require a workflow ID"
    );
    task.status = TaskStatus::Completed {
        completed_at: at(1),
    };
    assert_eq!(
        invalid_task(store().submit(&task)),
        "submitted tasks must be pending"
    );
}

#[test]
fn the_longest_execution_time_fits_the_database() {
    let longest = Duration::from_millis(i64::MAX as u64);
    let task = pending_task("task-1", at(1_000), 3, longest);
    assert_eq!(
        store().submit(&task).unwrap().execution_timeout_ms,
        i64::MAX
    );
    let longer = Duration::from_millis(i64::MAX as u64 + 1);
    let task = pending_task("task-1", at(1_000), 3, longer);
    assert_eq!(
        invalid_task(store().submit(&task)),
        "execution timeout is too large"
    );
}

#[test]
fn a_ready_task_is_leased() {
    let now = at(1_010);
    let row = ready_row();
    let plan = store().lease_next(&row, &worker(), 7, now).unwrap();
    assert_eq!(plan.task_id, "task-1");
    assert_random_uuid(&plan.attempt.id);
    assert_ne!(plan.attempt.id, plan.event.id);
    assert_eq!(plan.attempt.task_id, "task-1");
    assert_eq!(plan.attempt.attempt_number, 1);
    assert_eq!(plan.attempt.worker_id, "worker-1");
    assert_eq!(plan.attempt.ownership_epoch, 7);
    assert_eq!(plan.attempt.lease_expiry, at(1_040));
    assert_eq!(plan.attempt.started_at, now);
    assert_event(
        &plan.event,
        "leased",
        now,
        "{\"worker_id\": \"worker-1\", \"ownership_epoch\": 7}",
    );
    assert_eq!(
        plan.lease,
        Lease {
            owner_id: LeaseOwnerId("worker-1".into()),
            ownership_epoch: 7,
            leased_at: now,
            expires_at: at(1_040),
        }
    );
    assert_eq!(plan.attempts_started, 1);
}

#[test]
fn an_epoch_is_stored_by_its_bits_and_recorded_as_it_is() {
    let plan = store()
        .lease_next(&ready_row(), &worker(), u64::MAX, at(1_010))
        .unwrap();
    assert_eq!(plan.attempt.ownership_epoch, -1);
    assert_eq!(plan.lease.ownership_epoch, u64::MAX);
    assert_eq!(
        plan.event.details,
        document("{\"worker_id\": \"worker-1\", \"ownership_epoch\": 18446744073709551615}")
    );
    let key = attempt_key(&task_id(), &worker(), 0x8000_0000_0000_0000);
    assert_eq!(key.task_id, "task-1");
    assert_eq!(key.worker_id, "worker-1");
    assert_eq!(key.ownership_epoch, i64::MIN);
    assert_eq!(attempt_key(&task_id(), &worker(), 5).ownership_epoch, 5);
}

#[test]
fn a_row_that_makes_no_sense_is_not_leased() {
    let mut row = ready_row();
    row.current_attempt = i32::MAX;
    assert_eq!(
        invalid_task(store().lease_next(&row, &worker(), 1, at(1_010))),
        "attempt count overflowed"
    );
    row.execution_timeout_ms = -1;
    assert_eq!(
        invalid_task(store().lease_next(&row, &worker(), 1, at(1_010))),
        "execution timeout is invalid"
    );
    let mut row = ready_row();
    row.current_attempt = -1;
    let plan = store().lease_next(&row, &worker(), 1, at(1_010)).unwrap();
    assert_eq!(plan.attempt.attempt_number, 0);
    assert_eq!(plan.attempts_started, 0);
    row.current_attempt = i32::MIN;
    let plan = store().lease_next(&row, &worker(), 1, at(1_010)).unwrap();
    assert_eq!(plan.attempts_started, 0x8000_0001);
}

fn read(row: &ReadyRow, plan: LeasePlan, read_at: SystemTime) -> Task {
    store().leased_task(row, &plan, Ok(()), read_at).unwrap()
}

fn database_error() -> tokio_postgres::Error {
    "host=localhost port=none"
        .parse::<tokio_postgres::Config>()
        .unwrap_err()
}

#[test]
fn a_lease_of_a_row_with_an_invalid_policy_is_taken_back() {
    let mut row = ready_row();
    let plan = store().lease_next(&row, &worker(), 1, at(1_010)).unwrap();
    assert_eq!(plan.refusal, None);
    row.retry_policy = document("{\"max_retries\": 3}");
    assert_eq!(
        invalid_task(store().leased_task(&row, &plan, Ok(()), at(1_010))),
        "retry policy is invalid"
    );
    let plan = store().lease_next(&row, &worker(), 1, at(1_010)).unwrap();
    assert_eq!(plan.refusal.as_deref(), Some("retry policy is invalid"));
    assert_eq!(
        invalid_task(store().leased_task(&row, &plan, Ok(()), at(1_010))),
        "retry policy is invalid"
    );
    row.current_attempt = i32::MAX;
    assert_eq!(
        invalid_task(store().lease_next(&row, &worker(), 1, at(1_010))),
        "attempt count overflowed"
    );
    row.execution_timeout_ms = -1;
    assert_eq!(
        invalid_task(store().lease_next(&row, &worker(), 1, at(1_010))),
        "execution timeout is invalid"
    );
}

#[test]
fn an_error_of_the_database_goes_before_a_refusal() {
    let mut row = ready_row();
    row.retry_policy = document("{}");
    let plan = store().lease_next(&row, &worker(), 1, at(1_010)).unwrap();
    assert!(matches!(
        store().leased_task(&row, &plan, Err(database_error()), at(1_010)),
        Err(PostgresTaskStoreError::Database(_))
    ));
    let mut odd = active(3, 0);
    odd.retry_policy = document("{}");
    let plan = store().recover_expired(&vec![expired("task-1", odd)], at(1_040));
    assert!(plan.transitions.is_empty());
    assert!(matches!(
        store().recovered(&plan, Err(database_error())),
        Err(PostgresTaskStoreError::Database(_))
    ));
    assert_eq!(
        invalid_task(store().recovered(&plan, Ok(()))),
        "retry policy is invalid"
    );
}

#[test]
fn an_attempt_is_recorded_under_its_identity() {
    let attempt = attempt_with_id(
        "attempt-1".into(),
        "task-1",
        4,
        &worker(),
        u64::MAX - 1,
        at(1_040),
        at(1_010),
    );
    assert_eq!(attempt.id, "attempt-1");
    assert_eq!(attempt.task_id, "task-1");
    assert_eq!(attempt.attempt_number, 4);
    assert_eq!(attempt.worker_id, "worker-1");
    assert_eq!(attempt.ownership_epoch, -2);
    assert_eq!(attempt.lease_expiry, at(1_040));
    assert_eq!(attempt.started_at, at(1_010));
}

#[test]
fn a_submitted_task_is_handed_out_as_by_a_store_in_memory() {
    let now = at(1_010);
    let task = pending_task("task-1", at(1_000), 3, Duration::from_millis(30_500));
    let row = row_of(store().submit(&task).unwrap());
    let plan = store().lease_next(&row, &worker(), 7, now).unwrap();

    let mut memory = InMemoryTaskStore::new();
    memory.submit(task).unwrap();
    let expected = memory
        .lease_next(&PoolId("pool-1".into()), &worker(), 7, now)
        .unwrap()
        .unwrap();
    assert_eq!(read(&row, plan, now), expected);
}

#[test]
fn a_fraction_of_a_millisecond_is_lost_in_the_database() {
    let task = pending_task("task-1", at(1_000), 3, Duration::new(30, 1_999_999));
    let row = row_of(store().submit(&task).unwrap());
    let plan = store().lease_next(&row, &worker(), 7, at(1_010)).unwrap();
    let leased = read(&row, plan, at(1_011));
    assert_eq!(
        leased.limits.max_execution_time,
        Duration::new(30, 1_000_000)
    );
    assert_eq!(leased.attempt.last_attempt_at, Some(at(1_011)));
}

#[test]
fn a_row_that_makes_no_sense_is_not_read() {
    let status = TaskStatus::Completed {
        completed_at: at(1),
    };
    let mut row = ready_row();
    row.execution_timeout_ms = -1;
    assert_eq!(
        invalid_task(task_from_row(&row, status.clone(), 1, at(1))),
        "execution timeout is invalid"
    );
    row.retry_policy = document("{}");
    assert_eq!(
        invalid_task(task_from_row(&row, status, 1, at(1))),
        "retry policy is invalid"
    );
}

#[test]
fn a_lease_is_renewed_up_to_the_deadline() {
    let plan = store()
        .renew(Some(active(3, 0)), &task_id(), &worker(), 7, at(1_020))
        .unwrap();
    assert_eq!(plan.task_id, "task-1");
    assert_eq!(plan.worker_id, "worker-1");
    assert_eq!(plan.ownership_epoch, 7);
    assert_eq!(plan.lease_expiry, at(1_050));
    assert_event(
        &plan.event,
        "lease_renewed",
        at(1_020),
        "{\"ownership_epoch\": 7}",
    );
    let mut longer = active(3, 0);
    longer.execution_timeout_ms = 50_000;
    let plan = store()
        .renew(Some(longer), &task_id(), &worker(), 7, at(1_020))
        .unwrap();
    assert_eq!(plan.lease_expiry, at(1_060));
}

#[test]
fn an_attempt_with_an_invalid_timeout_is_not_renewed() {
    let mut odd = active(3, 0);
    odd.execution_timeout_ms = -5;
    assert_eq!(
        invalid_task(store().renew(Some(odd), &task_id(), &worker(), 7, at(1_020))),
        "execution timeout is invalid"
    );
}

#[test]
fn a_completed_task_is_finished_without_an_error() {
    let plan = store()
        .complete(Some(active(3, 0)), &task_id(), &worker(), 7, at(1_020))
        .unwrap();
    assert_eq!(plan.task_id, "task-1");
    assert_eq!(plan.worker_id, "worker-1");
    assert_eq!(plan.ownership_epoch, 7);
    assert_eq!(plan.state, TaskState::Completed);
    assert_eq!(plan.finished_at, at(1_020));
    assert_eq!(plan.error, None);
    assert_event(&plan.event, "completed", at(1_020), "{\"error\": null}");
}

#[test]
fn a_failed_task_is_finished_with_its_error() {
    let plan = store()
        .fail(
            Some(active(3, 0)),
            &task_id(),
            &worker(),
            7,
            at(1_020),
            "hopeless",
        )
        .unwrap();
    assert_eq!(plan.state, TaskState::Failed);
    assert_eq!(plan.error.as_deref(), Some("hopeless"));
    assert_event(
        &plan.event,
        "failed",
        at(1_020),
        "{\"error\": \"hopeless\"}",
    );
}

#[test]
fn a_lease_that_is_not_current_commits_nothing() {
    let now = at(1_020);
    assert!(matches!(
        store().renew(None, &task_id(), &worker(), 7, now),
        Err(PostgresTaskStoreError::InvalidLease)
    ));
    assert!(matches!(
        store().complete(None, &task_id(), &worker(), 7, now),
        Err(PostgresTaskStoreError::InvalidLease)
    ));
    assert!(matches!(
        store().fail(None, &task_id(), &worker(), 7, now, "no"),
        Err(PostgresTaskStoreError::InvalidLease)
    ));
    assert!(matches!(
        store().retry(None, &task_id(), now, "no"),
        Err(PostgresTaskStoreError::InvalidLease)
    ));
    assert!(matches!(
        active_attempt(None),
        Err(PostgresTaskStoreError::InvalidLease)
    ));
    assert_eq!(
        active_attempt(Some(active(3, 0))).unwrap().lease_expiry,
        at(1_030)
    );
}

#[test]
fn a_lease_that_has_ended_commits_nothing() {
    let now = at(1_030);
    assert!(matches!(
        store().renew(Some(active(3, 0)), &task_id(), &worker(), 7, now),
        Err(PostgresTaskStoreError::LeaseExpired)
    ));
    assert!(matches!(
        store().complete(Some(active(3, 0)), &task_id(), &worker(), 7, now),
        Err(PostgresTaskStoreError::LeaseExpired)
    ));
    assert!(matches!(
        store().fail(Some(active(3, 0)), &task_id(), &worker(), 7, now, "no"),
        Err(PostgresTaskStoreError::LeaseExpired)
    ));
    assert!(matches!(
        store().retry(Some(active(3, 0)), &task_id(), now, "no"),
        Err(PostgresTaskStoreError::LeaseExpired)
    ));
    let mut late = active(3, 0);
    late.deadline = at(1_010);
    assert!(matches!(
        ensure_active(&late, at(1_010)),
        Err(PostgresTaskStoreError::LeaseExpired)
    ));
    assert!(ensure_active(&late, SystemTime::from_parts(1_009, 999_999_999)).is_ok());
}

#[test]
fn a_failed_attempt_leaves_the_task_ready_with_one_more_retry() {
    let plan = store()
        .retry(Some(active(3, 1)), &task_id(), at(1_020), "broken")
        .unwrap();
    assert_eq!(plan.task_id, "task-1");
    assert_eq!(plan.state, TaskState::Ready);
    assert_eq!(plan.available_at, at(1_020));
    assert_eq!(
        plan.retry_policy,
        document("{\"max_retries\": 3, \"retry_count\": 2}")
    );
    assert_eq!(plan.finished_at, at(1_020));
    assert_eq!(plan.error, "broken");
    assert_event(
        &plan.event,
        "ready",
        at(1_020),
        "{\"message\": \"broken\", \"retry_count\": 2}",
    );
}

#[test]
fn a_failed_attempt_without_a_retry_left_is_the_last_one() {
    let plan = store()
        .retry(
            Some(active(3, 3)),
            &task_id(),
            at(1_020),
            String::from("broken"),
        )
        .unwrap();
    assert_eq!(plan.state, TaskState::Failed);
    assert_eq!(
        plan.retry_policy,
        document("{\"max_retries\": 3, \"retry_count\": 3}")
    );
    assert_event(
        &plan.event,
        "failed",
        at(1_020),
        "{\"message\": \"broken\", \"retry_count\": 3}",
    );
}

#[test]
fn the_deadline_ends_the_retries() {
    let plan =
        transition_to_retry_or_failure(&task_id(), &active(3, 0), at(1_060), "late".into())
            .unwrap();
    assert_eq!(plan.state, TaskState::Failed);
    let plan =
        transition_to_retry_or_failure(&task_id(), &active(3, 0), at(1_059), "late".into())
            .unwrap();
    assert_eq!(plan.state, TaskState::Ready);
}

#[test]
fn an_attempt_with_an_invalid_policy_is_not_retried() {
    let mut odd = active(3, 0);
    odd.retry_policy = document("[3, 0]");
    assert_eq!(
        invalid_task(store().retry(Some(odd), &task_id(), at(1_020), "broken")),
        "retry policy is invalid"
    );
}

fn expired(name: &str, active: ActiveAttempt) -> ExpiredRow {
    ExpiredRow {
        task_id: TaskId(name.into()),
        active,
    }
}

#[test]
fn expired_leases_are_recovered_one_by_one() {
    let rows = vec![
        expired("task-1", active(3, 0)),
        expired("task-2", active(1, 1)),
    ];
    let plan = store().recover_expired(&rows, at(1_040));
    assert_eq!(plan.refusal, None);
    assert_eq!(store().recovered(&plan, Ok(())).unwrap(), 2);
    let plans: Vec<TransitionPlan> = plan.transitions;
    assert_eq!(plans.len(), 2);
    assert_eq!(plans[0].task_id, "task-1");
    assert_eq!(plans[0].state, TaskState::Ready);
    assert_eq!(plans[0].error, "lease expired");
    assert_event(
        &plans[0].event,
        "ready",
        at(1_040),
        "{\"message\": \"lease expired\", \"retry_count\": 1}",
    );
    assert_eq!(plans[1].task_id, "task-2");
    assert_eq!(plans[1].state, TaskState::Failed);
    let nothing = store().recover_expired(&vec![], at(1_040));
    assert_eq!(store().recovered(&nothing, Ok(())).unwrap(), 0);
    assert_eq!(store().recovered_count(2, 3), 5);
}

#[test]
fn a_recovery_stops_at_the_first_invalid_policy() {
    let mut odd = active(3, 0);
    odd.retry_policy = document("null");
    let rows = vec![
        expired("task-1", active(3, 0)),
        expired("task-2", odd),
        expired("task-3", active(3, 0)),
    ];
    let plan = store().recover_expired(&rows, at(1_040));
    assert_eq!(plan.transitions.len(), 1);
    assert_eq!(plan.transitions[0].task_id, "task-1");
    assert_eq!(plan.refusal.as_deref(), Some("retry policy is invalid"));
    assert_eq!(
        invalid_task(store().recovered(&plan, Ok(()))),
        "retry policy is invalid"
    );
}

#[test]
fn postgres_retries_expired_leases_then_fails_at_the_limit() {
    let created = at(1_000);
    let task = pending_task("task-1", created, 1, Duration::from_millis(1));
    let mut row = row_of(store().submit(&task).unwrap());
    let mut now = created;
    let mut states: Vec<&'static str> = Vec::new();
    for name in ["worker-1", "worker-2"] {
        let plan = store()
            .lease_next(&row, &WorkerId(name.into()), 1, now)
            .unwrap();
        now = now.checked_add(Duration::from_millis(10)).unwrap();
        assert!(!now.is_before(&plan.attempt.lease_expiry));
        let rows = vec![ExpiredRow {
            task_id: TaskId(plan.task_id),
            active: ActiveAttempt {
                deadline: row.deadline,
                lease_expiry: plan.attempt.lease_expiry,
                execution_timeout_ms: row.execution_timeout_ms,
                retry_policy: row.retry_policy,
            },
        }];
        let mut plans = store().recover_expired(&rows, now).transitions;
        let recovered = plans.remove(0);
        states.push(recovered.state.as_str());
        row.retry_policy = recovered.retry_policy;
        row.current_attempt = plan.attempt.attempt_number;
    }
    assert_eq!(states, vec!["ready", "failed"]);
    assert_eq!(row.retry_policy["retry_count"], 1);
    assert_eq!(row.current_attempt, 2);
}

#[test]
fn a_policy_is_read_back_as_it_was_written() {
    for (max_retries, retry_count) in [(0, 0), (3, 1), (u32::MAX, 0), (7, u32::MAX)] {
        let policy = retry_policy(max_retries, retry_count);
        assert_eq!(retry_values(&policy).unwrap(), (max_retries, retry_count));
    }
}

#[test]
fn a_policy_needs_both_counts_as_whole_numbers() {
    for text in [
        "{\"max_retries\": 3}",
        "{\"retry_count\": 3}",
        "{\"max_retries\": -1, \"retry_count\": 0}",
        "{\"max_retries\": 3, \"retry_count\": \"0\"}",
        "{\"max_retries\": 3, \"retry_count\": null}",
        "{\"max_retries\": 3, \"retry_count\": 0.5}",
        "{\"max_retries\": 3.0, \"retry_count\": 0}",
        "\"max_retries\"",
        "[]",
        "null",
    ] {
        assert_eq!(
            invalid_task(retry_values(&document(text))),
            "retry policy is invalid"
        );
    }
    let wide = document("{\"max_retries\": 4294967299, \"retry_count\": 18446744073709551615}");
    assert_eq!(retry_values(&wide).unwrap(), (3, u32::MAX));
}

#[test]
fn an_expiry_is_capped_by_the_deadline() {
    let now = at(1_000);
    assert_eq!(capped_expiry(now, 1_500, at(1_060)).unwrap(), SystemTime::from_parts(1_001, 500_000_000));
    assert_eq!(capped_expiry(now, 60_000, at(1_060)).unwrap(), at(1_060));
    assert_eq!(capped_expiry(now, 60_001, at(1_060)).unwrap(), at(1_060));
    assert_eq!(capped_expiry(now, i64::MAX, at(1_060)).unwrap(), at(1_060));
    assert_eq!(capped_expiry(now, 0, at(1_060)).unwrap(), now);
    assert_eq!(
        invalid_task(capped_expiry(now, i64::MIN, at(1_060))),
        "execution timeout is invalid"
    );
    assert_eq!(duration_from_ms(1_500).unwrap(), Duration::new(1, 500_000_000));
    assert_eq!(
        invalid_task(duration_from_ms(-1)),
        "execution timeout is invalid"
    );
}

#[test]
fn an_event_has_an_identity_of_its_own() {
    let details = document("{\"a\": 1}");
    let event = write_event("task-1", "odd", at(5), details.clone());
    assert_event(&event, "odd", at(5), "{\"a\": 1}");
    let other = write_event("task-1", "odd", at(5), details.clone());
    assert_ne!(event.id, other.id);
    let named = event_with_id("event-1".into(), "task-1", "odd", at(5), details);
    assert_eq!(named.id, "event-1");
    assert_eq!(named.event_type, "odd");
}

#[test]
fn states_have_names() {
    assert_eq!(TaskState::Ready.as_str(), "ready");
    assert_eq!(TaskState::Leased.as_str(), "leased");
    assert_eq!(TaskState::Completed.as_str(), "completed");
    assert_eq!(TaskState::Failed.as_str(), "failed");
}

#[test]
fn database_store_errors_are_put_into_words() {
    let error = "host=localhost port=none"
        .parse::<tokio_postgres::Config>()
        .unwrap_err();
    let words = error.to_string();
    let wrapped = PostgresTaskStoreError::from(error);
    assert!(matches!(wrapped, PostgresTaskStoreError::Database(_)));
    assert_eq!(wrapped.describe(), format!("database error: {words}"));
    assert_eq!(
        PostgresTaskStoreError::InvalidTask("odd".into()).describe(),
        "odd"
    );
    assert_eq!(
        PostgresTaskStoreError::InvalidLease.describe(),
        "lease is not current"
    );
    assert_eq!(
        PostgresTaskStoreError::LeaseExpired.describe(),
        "lease has expired"
    );
}
