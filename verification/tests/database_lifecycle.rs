use std::collections::BTreeMap;

use platform_09_26::domain::{
    ActivityType, AttemptMetadata, PoolId, RetryMetadata, Task, TaskId, TaskLimits, TaskStatus,
    TenantId, WorkflowId,
};
use platform_09_26::storage::postgres::{
    attempt_key, retry_values, ActiveAttempt, AttemptInsert, ExpiredRow, FinishPlan,
    ReadyRow, TaskInsert, TaskState, TransitionPlan,
};
use platform_09_26::storage::{PostgresTaskStore, PostgresTaskStoreError};
use platform_09_26::time::{Duration, SystemTime};
use platform_09_26::worker::WorkerId;

/// The tables of the database, as the statements of the store read and write
/// them.
#[derive(Default)]
struct Tables {
    tasks: BTreeMap<String, (TaskState, TaskInsert)>,
    attempts: Vec<(AttemptInsert, Option<TaskState>)>,
}

impl Tables {
    fn find_ready(&self, pool_id: &str, now: SystemTime) -> Option<ReadyRow> {
        let mut rows: Vec<&TaskInsert> = self
            .tasks
            .values()
            .filter(|(state, _)| *state == TaskState::Ready)
            .map(|(_, row)| row)
            .filter(|row| row.pool_id == pool_id)
            .filter(|row| row.available_at <= now && now < row.deadline)
            .collect();
        rows.sort_by(|left, right| {
            right
                .priority
                .cmp(&left.priority)
                .then_with(|| left.created_at.cmp(&right.created_at))
                .then_with(|| left.id.cmp(&right.id))
        });
        rows.first().map(|row| ReadyRow {
            id: row.id.clone(),
            workflow_id: row.workflow_id.clone(),
            tenant_id: "tenant-1".into(),
            activity_type: row.activity_type.clone(),
            input: row.input.clone(),
            pool_id: row.pool_id.clone(),
            priority: row.priority,
            created_at: row.created_at,
            deadline: row.deadline,
            execution_timeout_ms: row.execution_timeout_ms,
            retry_policy: row.retry_policy.clone(),
            current_attempt: row.current_attempt,
        })
    }

    fn under_way(&self, task_id: &str) -> usize {
        self.attempts
            .iter()
            .filter(|(attempt, outcome)| attempt.task_id == task_id && outcome.is_none())
            .count()
    }

    fn active(&self, attempt: &AttemptInsert) -> ActiveAttempt {
        let row = &self.tasks[&attempt.task_id].1;
        ActiveAttempt {
            deadline: row.deadline,
            lease_expiry: attempt.lease_expiry,
            execution_timeout_ms: row.execution_timeout_ms,
            retry_policy: row.retry_policy.clone(),
        }
    }

    fn find(&self, task_id: &TaskId, worker: &WorkerId, epoch: u64) -> Option<ActiveAttempt> {
        let key = attempt_key(task_id, worker, epoch);
        self.attempts
            .iter()
            .filter(|(_, outcome)| outcome.is_none())
            .map(|(attempt, _)| attempt)
            .filter(|attempt| self.tasks[&attempt.task_id].0 == TaskState::Leased)
            .find(|attempt| {
                attempt.task_id == key.task_id
                    && attempt.worker_id == key.worker_id
                    && attempt.ownership_epoch == key.ownership_epoch
            })
            .map(|attempt| self.active(attempt))
    }

    fn find_expired(&self, now: SystemTime) -> Vec<ExpiredRow> {
        self.attempts
            .iter()
            .filter(|(_, outcome)| outcome.is_none())
            .map(|(attempt, _)| (attempt, self.active(attempt)))
            .filter(|(_, active)| active.lease_expiry <= now || active.deadline <= now)
            .map(|(attempt, active)| ExpiredRow {
                task_id: TaskId(attempt.task_id.clone()),
                active,
            })
            .collect()
    }

    fn finish(&mut self, plan: FinishPlan) {
        self.tasks.get_mut(&plan.task_id).unwrap().0 = plan.state;
        for (attempt, outcome) in &mut self.attempts {
            if outcome.is_none()
                && attempt.task_id == plan.task_id
                && attempt.worker_id == plan.worker_id
                && attempt.ownership_epoch == plan.ownership_epoch
            {
                *outcome = Some(plan.state);
            }
        }
    }

    fn transition(&mut self, plan: TransitionPlan) {
        let (state, row) = self.tasks.get_mut(&plan.task_id).unwrap();
        *state = plan.state;
        row.available_at = plan.available_at;
        row.retry_policy = plan.retry_policy;
        for (attempt, outcome) in &mut self.attempts {
            if outcome.is_none() && attempt.task_id == plan.task_id {
                *outcome = Some(plan.state);
            }
        }
    }
}

struct Database {
    store: PostgresTaskStore,
    tables: Tables,
}

impl Database {
    fn with_one_task(max_retries: u32) -> Database {
        let store = PostgresTaskStore::new("postgres://localhost/platform");
        let now = at(1_000);
        let task = Task {
            id: task_id(),
            tenant_id: TenantId("tenant-1".into()),
            pool_id: PoolId("pool-1".into()),
            activity_type: ActivityType("echo".into()),
            input: b"hello".to_vec(),
            workflow_id: Some(WorkflowId("workflow-1".into())),
            priority: 10,
            created_at: now,
            limits: TaskLimits {
                max_execution_time: Duration::from_secs(30),
                deadline: at(1_060),
            },
            retry: RetryMetadata {
                retry_count: 0,
                max_retries,
            },
            attempt: AttemptMetadata {
                attempts_started: 0,
                last_attempt_at: None,
            },
            status: TaskStatus::Pending {
                expires_at: at(1_060),
            },
        };
        let added = store.submit(&task).unwrap();
        let mut tables = Tables::default();
        tables.tasks.insert(added.id.clone(), (added.state, added));
        Database { store, tables }
    }

    fn lease_next(&mut self, worker: &WorkerId, epoch: u64, now: SystemTime) -> Option<Task> {
        let row = self.tables.find_ready("pool-1", now)?;
        let plan = self.store.lease_next(&row, worker, epoch, now).unwrap();
        let (state, kept) = self.tables.tasks.get_mut(&plan.task_id).unwrap();
        *state = TaskState::Leased;
        kept.current_attempt = plan.attempt.attempt_number;
        let task = self.store.leased_task(&row, &plan, Ok(()), now).unwrap();
        self.tables.attempts.push((plan.attempt, None));
        Some(task)
    }

    fn complete(
        &mut self,
        worker: &WorkerId,
        epoch: u64,
        now: SystemTime,
    ) -> Result<(), PostgresTaskStoreError> {
        let found = self.tables.find(&task_id(), worker, epoch);
        let plan = self
            .store
            .complete(found, &task_id(), worker, epoch, now)?;
        self.tables.finish(plan);
        Ok(())
    }

    fn recover_expired(&mut self, now: SystemTime) -> usize {
        let rows = self.tables.find_expired(now);
        let plan = self.store.recover_expired(&rows, now);
        let leased = self.store.recovered(&plan, Ok(())).unwrap();
        for transition in plan.transitions {
            self.tables.transition(transition);
        }
        let mut given_up = 0;
        for (state, row) in self.tables.tasks.values_mut() {
            if *state == TaskState::Ready && row.deadline <= now {
                *state = TaskState::Failed;
                given_up += 1;
            }
        }
        self.store.recovered_count(leased, given_up)
    }

    fn state(&self) -> TaskState {
        self.tables.tasks["task-1"].0
    }

    fn retries(&self) -> (u32, u32) {
        retry_values(&self.tables.tasks["task-1"].1.retry_policy).unwrap()
    }
}

fn at(secs: i64) -> SystemTime {
    SystemTime::from_parts(secs, 0)
}

fn task_id() -> TaskId {
    TaskId("task-1".into())
}

fn worker(name: &str) -> WorkerId {
    WorkerId(name.into())
}

#[test]
fn postgres_leases_one_task_to_exactly_one_worker() {
    let mut database = Database::with_one_task(3);
    let leases = [
        database.lease_next(&worker("worker-1"), 1, at(1_000)),
        database.lease_next(&worker("worker-2"), 1, at(1_000)),
    ];
    assert_eq!(leases.iter().flatten().count(), 1);
    assert_eq!(database.tables.under_way("task-1"), 1);
    assert!(database
        .tables
        .find(&task_id(), &worker("worker-1"), 1)
        .is_some());
    assert!(database
        .tables
        .find(&task_id(), &worker("worker-2"), 1)
        .is_none());
    assert!(database
        .tables
        .find(&task_id(), &worker("worker-1"), 2)
        .is_none());
}

#[test]
fn the_end_of_a_task_is_committed_once() {
    let mut database = Database::with_one_task(3);
    let holder = worker("worker-1");
    database.lease_next(&holder, 1, at(1_000)).unwrap();
    assert!(matches!(
        database.complete(&worker("worker-2"), 1, at(1_010)),
        Err(PostgresTaskStoreError::InvalidLease)
    ));
    database.complete(&holder, 1, at(1_010)).unwrap();
    assert_eq!(database.state(), TaskState::Completed);
    assert_eq!(database.tables.under_way("task-1"), 0);
    assert!(matches!(
        database.complete(&holder, 1, at(1_011)),
        Err(PostgresTaskStoreError::InvalidLease)
    ));
    assert_eq!(database.recover_expired(at(2_000)), 0);
    assert_eq!(database.state(), TaskState::Completed);
    assert!(database.lease_next(&holder, 1, at(1_020)).is_none());
}

#[test]
fn a_lease_that_was_recovered_commits_nothing() {
    let mut database = Database::with_one_task(3);
    database
        .lease_next(&worker("worker-1"), 1, at(1_000))
        .unwrap();
    assert!(matches!(
        database.complete(&worker("worker-1"), 1, at(1_030)),
        Err(PostgresTaskStoreError::LeaseExpired)
    ));
    assert_eq!(database.recover_expired(at(1_030)), 1);
    assert!(matches!(
        database.complete(&worker("worker-1"), 1, at(1_031)),
        Err(PostgresTaskStoreError::InvalidLease)
    ));
    let taken = database
        .lease_next(&worker("worker-2"), 2, at(1_031))
        .unwrap();
    assert_eq!(taken.attempt.attempts_started, 2);
    assert_eq!(taken.retry.retry_count, 1);
    assert_eq!(database.tables.under_way("task-1"), 1);
    database
        .complete(&worker("worker-2"), 2, at(1_032))
        .unwrap();
}

#[test]
fn a_recovery_leaves_a_live_lease_alone() {
    let mut database = Database::with_one_task(3);
    let holder = worker("worker-1");
    database.lease_next(&holder, 1, at(1_000)).unwrap();
    assert_eq!(
        database.recover_expired(SystemTime::from_parts(1_029, 999_999_000)),
        0
    );
    assert_eq!(database.state(), TaskState::Leased);
    assert_eq!(database.retries(), (3, 0));
    database.complete(&holder, 1, at(1_029)).unwrap();
}

#[test]
fn later_attempts_have_no_lower_epoch_where_none_is_granted() {
    let mut database = Database::with_one_task(3);
    for (moment, epoch) in [(1_000, 3), (1_030, 3), (1_055, u64::MAX)] {
        if moment == 1_055 {
            let found = database.tables.find(&task_id(), &worker("worker-1"), 3);
            let plan = database
                .store
                .retry(found, &task_id(), at(1_050), "broken")
                .unwrap();
            database.tables.transition(plan);
        }
        database.recover_expired(at(moment));
        database
            .lease_next(&worker("worker-1"), epoch, at(moment))
            .unwrap();
    }
    let epochs: Vec<u64> = database
        .tables
        .attempts
        .iter()
        .map(|(attempt, _)| attempt.ownership_epoch as u64)
        .collect();
    assert_eq!(epochs, vec![3, 3, u64::MAX]);
}

#[test]
fn the_database_hands_out_the_most_urgent_task_first() {
    let mut database = Database::with_one_task(3);
    for (id, priority, created) in [("low", 9, 900), ("old", 10, 900), ("high", 11, 1_000)] {
        let row = database.tables.find_ready("pool-1", at(1_000)).unwrap();
        let added = TaskInsert {
            id: id.into(),
            workflow_id: row.workflow_id,
            activity_type: row.activity_type,
            input: row.input,
            state: TaskState::Ready,
            pool_id: row.pool_id,
            priority,
            available_at: at(created),
            execution_timeout_ms: row.execution_timeout_ms,
            retry_policy: row.retry_policy,
            current_attempt: 0,
            created_at: at(created),
            deadline: row.deadline,
        };
        database
            .tables
            .tasks
            .insert(id.into(), (added.state, added));
    }
    let mut order: Vec<String> = Vec::new();
    while let Some(task) = database.lease_next(&worker("worker-1"), 1, at(1_000)) {
        order.push(task.id.0);
    }
    assert_eq!(order, vec!["high", "old", "task-1", "low"]);
    assert!(database.tables.find_ready("pool-2", at(1_000)).is_none());
}

#[test]
fn a_tenant_has_one_more_task_leased_after_a_lease_and_one_fewer_after_its_end() {
    let mut database = Database::with_one_task(3);
    let leased = |database: &Database| {
        database
            .tables
            .tasks
            .values()
            .filter(|(state, _)| *state == TaskState::Leased)
            .count()
    };
    assert_eq!(leased(&database), 0);
    database
        .lease_next(&worker("worker-1"), 1, at(1_000))
        .unwrap();
    assert_eq!(leased(&database), 1);
    database.recover_expired(at(1_001));
    assert_eq!(leased(&database), 1);
    database
        .complete(&worker("worker-1"), 1, at(1_002))
        .unwrap();
    assert_eq!(leased(&database), 0);
}

#[test]
fn retries_run_out() {
    let mut database = Database::with_one_task(2);
    let holder = worker("worker-1");
    for made in 0..=2 {
        assert_eq!(database.retries(), (2, made));
        let now = at(1_000 + i64::from(made));
        database.lease_next(&holder, 1, now).unwrap();
        let found = database.tables.find(&task_id(), &holder, 1);
        let plan = database
            .store
            .retry(found, &task_id(), now, "broken")
            .unwrap();
        database.tables.transition(plan);
    }
    assert_eq!(database.state(), TaskState::Failed);
    assert_eq!(database.retries(), (2, 2));
    assert!(database.lease_next(&holder, 1, at(1_010)).is_none());
}

#[test]
fn a_waiting_task_is_given_up_at_its_deadline() {
    let mut database = Database::with_one_task(3);
    assert_eq!(database.recover_expired(at(1_059)), 0);
    assert_eq!(database.state(), TaskState::Ready);
    assert_eq!(database.recover_expired(at(1_060)), 1);
    assert_eq!(database.state(), TaskState::Failed);
}

#[test]
fn a_leased_task_is_given_up_at_its_deadline() {
    let mut database = Database::with_one_task(3);
    let leased = database
        .lease_next(&worker("worker-1"), 1, at(1_050))
        .unwrap();
    assert!(matches!(
        leased.status,
        TaskStatus::Leased(ref lease) if lease.expires_at == at(1_060)
    ));
    assert_eq!(database.recover_expired(at(1_060)), 1);
    assert_eq!(database.state(), TaskState::Failed);
    assert_eq!(database.retries(), (3, 0));
}
