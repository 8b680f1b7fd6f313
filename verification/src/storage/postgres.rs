//! A store that keeps its tasks in PostgreSQL. The database holds the rows and
//! runs the queries; what is decided between them, and what is written, is
//! decided here.

use serde_json::Value;
use vstd::prelude::*;

use crate::domain::{
    ActivityType, AttemptMetadata, AttemptView, Lease, LeaseOwnerId, LeaseView, LimitsView, PoolId,
    RetryMetadata, StatusView, Task, TaskId, TaskLimits, TaskStatus, TaskView, TenantId, WorkflowId,
};
use crate::numbers;
use crate::outside::json;
use crate::outside::json::Member;
use crate::outside::random;
use crate::time::{Duration, SystemTime, NANOS_PER_MILLI};
use crate::worker::WorkerId;

verus! {

/// Why the store refuses a request.
#[derive(Debug)]
pub enum PostgresTaskStoreError {
    /// The database has refused something.
    Database(tokio_postgres::Error),
    /// The task, or what the database holds of it, cannot be worked with.
    InvalidTask(String),
    /// The lease is not the task's current one.
    InvalidLease,
    /// The lease has ended.
    LeaseExpired,
}

impl PostgresTaskStoreError {
    /// Whether the error is that the task is invalid, for the reason `reason`.
    pub open spec fn is_invalid_task(self, reason: Seq<char>) -> bool {
        self matches PostgresTaskStoreError::InvalidTask(message) && message@ == reason
    }

    /// The error that the task is invalid, for the reason `reason`.
    fn invalid_task(reason: &str) -> (result: Self)
        ensures
            result.is_invalid_task(reason@),
    {
        PostgresTaskStoreError::InvalidTask(reason.into())
    }

    /// The error in words.
    pub fn describe(&self) -> (result: String)
        ensures
            match self {
                PostgresTaskStoreError::Database(error) => exists|words: String| #[trigger]
                    vstd::string::to_string_from_display_ensures(error, words) && result@
                        == "database error: "@ + words@,
                PostgresTaskStoreError::InvalidTask(message) => result@ == message@,
                PostgresTaskStoreError::InvalidLease => result@ == "lease is not current"@,
                PostgresTaskStoreError::LeaseExpired => result@ == "lease has expired"@,
            },
    {
        match self {
            PostgresTaskStoreError::Database(error) => String::from("database error: ").concat(
                error.to_string().as_str(),
            ),
            PostgresTaskStoreError::InvalidTask(message) => message.clone(),
            PostgresTaskStoreError::InvalidLease => "lease is not current".into(),
            PostgresTaskStoreError::LeaseExpired => "lease has expired".into(),
        }
    }
}

impl From<tokio_postgres::Error> for PostgresTaskStoreError {
    fn from(error: tokio_postgres::Error) -> (result: Self) {
        PostgresTaskStoreError::Database(error)
    }
}

impl vstd::std_specs::convert::FromSpecImpl<tokio_postgres::Error> for PostgresTaskStoreError {
    open spec fn obeys_from_spec() -> bool {
        true
    }

    open spec fn from_spec(error: tokio_postgres::Error) -> Self {
        PostgresTaskStoreError::Database(error)
    }
}

/// How the database names where a task stands.
#[derive(Clone, Copy, Debug, PartialEq, Eq)]
pub enum TaskState {
    /// It waits for a worker.
    Ready,
    /// A worker has it.
    Leased,
    /// It was done.
    Completed,
    /// It was given up.
    Failed,
}

impl TaskState {
    /// The name.
    pub open spec fn name(self) -> Seq<char> {
        match self {
            TaskState::Ready => "ready"@,
            TaskState::Leased => "leased"@,
            TaskState::Completed => "completed"@,
            TaskState::Failed => "failed"@,
        }
    }

    /// The name.
    pub fn as_str(&self) -> (result: &'static str)
        ensures
            result@ == self.name(),
    {
        match self {
            TaskState::Ready => "ready",
            TaskState::Leased => "leased",
            TaskState::Completed => "completed",
            TaskState::Failed => "failed",
        }
    }
}

/// A row to be added to the tasks.
#[derive(Debug)]
pub struct TaskInsert {
    pub id: String,
    pub workflow_id: String,
    pub activity_type: String,
    pub input: Vec<u8>,
    pub state: TaskState,
    pub pool_id: String,
    pub priority: i32,
    pub available_at: SystemTime,
    pub execution_timeout_ms: i64,
    pub retry_policy: Value,
    pub current_attempt: i32,
    pub created_at: SystemTime,
    pub deadline: SystemTime,
}

/// A row of a task that is ready, with the tenant of its workflow.
#[derive(Debug)]
pub struct ReadyRow {
    pub id: String,
    pub workflow_id: String,
    pub tenant_id: String,
    pub activity_type: String,
    pub input: Vec<u8>,
    pub pool_id: String,
    pub priority: i32,
    pub created_at: SystemTime,
    pub deadline: SystemTime,
    pub execution_timeout_ms: i64,
    pub retry_policy: Value,
    pub current_attempt: i32,
}

/// A row to be added to the attempts.
#[derive(Debug)]
pub struct AttemptInsert {
    pub id: String,
    pub task_id: String,
    pub attempt_number: i32,
    pub worker_id: String,
    pub ownership_epoch: i64,
    pub lease_expiry: SystemTime,
    pub started_at: SystemTime,
}

/// A row to be added to the events.
#[derive(Debug)]
pub struct EventInsert {
    pub id: String,
    pub task_id: String,
    pub event_type: String,
    pub timestamp: SystemTime,
    pub details: Value,
}

/// What the database holds of the attempt that is under way at a leased task.
#[derive(Debug)]
pub struct ActiveAttempt {
    pub deadline: SystemTime,
    pub lease_expiry: SystemTime,
    pub execution_timeout_ms: i64,
    pub retry_policy: Value,
}

/// What the attempt that is under way at a leased task is found by.
#[derive(Debug)]
pub struct AttemptKey {
    pub task_id: String,
    pub worker_id: String,
    pub ownership_epoch: i64,
}

/// A leased task whose lease or deadline has passed.
#[derive(Debug)]
pub struct ExpiredRow {
    pub task_id: TaskId,
    pub active: ActiveAttempt,
}

/// What is written when a task is leased: the task `task_id` becomes leased
/// with the attempt `attempt.attempt_number`, and the attempt and the event are
/// added.
#[derive(Debug)]
pub struct LeasePlan {
    pub task_id: String,
    pub attempt: AttemptInsert,
    pub event: EventInsert,
    /// The lease that the worker gets.
    pub lease: Lease,
    /// How often work on the task was then started.
    pub attempts_started: u32,
    /// Why all of it is taken back once it was written, if it is.
    pub refusal: Option<String>,
}

/// What is written when a lease is renewed: the attempt that is under way gets
/// the new expiry, and the event is added.
#[derive(Debug)]
pub struct RenewPlan {
    pub task_id: String,
    pub worker_id: String,
    pub ownership_epoch: i64,
    pub lease_expiry: SystemTime,
    pub event: EventInsert,
}

/// What is written when a worker is done with a task: the task gets the state,
/// the attempt that is under way is finished with it, and the event is added.
#[derive(Debug)]
pub struct FinishPlan {
    pub task_id: String,
    pub worker_id: String,
    pub ownership_epoch: i64,
    pub state: TaskState,
    pub finished_at: SystemTime,
    pub error: Option<String>,
    pub event: EventInsert,
}

/// What is written when an attempt has failed: the task gets the state, the
/// time from which on it is available and the retry policy, the attempt that
/// is under way is finished with the state, and the event is added.
#[derive(Debug)]
pub struct TransitionPlan {
    pub task_id: String,
    pub state: TaskState,
    pub available_at: SystemTime,
    pub retry_policy: Value,
    pub finished_at: SystemTime,
    pub error: String,
    pub event: EventInsert,
}

/// What is written when leased tasks have run out of time: the transitions, one
/// after the other.
#[derive(Debug)]
pub struct RecoveryPlan {
    pub transitions: Vec<TransitionPlan>,
    /// Why all of it is taken back once it was written, if it is.
    pub refusal: Option<String>,
}

impl RecoveryPlan {
    /// Whether the plan ends the attempts `rows` at `now`, in their order: all of
    /// them, or those before the first whose retries cannot be read, to be taken
    /// back.
    pub open spec fn recovers(self, rows: Seq<ExpiredRow>, now: int) -> bool {
        let count = self.transitions@.len() as int;
        &&& count <= rows.len()
        &&& forall|i: int|
            0 <= i < count ==> {
                &&& retries_of((#[trigger] rows[i]).active.retry_policy) is Some
                &&& self.transitions@[i].follows(
                    rows[i].active,
                    rows[i].task_id@,
                    now,
                    "lease expired"@,
                )
            }
        &&& match self.refusal {
            None => count == rows.len(),
            Some(reason) => {
                &&& count < rows.len()
                &&& retries_of(rows[count].active.retry_policy) is None
                &&& reason@ == "retry policy is invalid"@
            },
        }
    }
}

/// The whole number from 0 to `u64::MAX` that the member `name` of `document`
/// holds.
pub open spec fn unsigned_of(document: Value, name: Seq<char>) -> Option<u64> {
    match json::members(document).get(name) {
        Some(Member::Unsigned(number)) => Some(number),
        _ => None,
    }
}

/// The retries that are allowed and those that were made, as `policy` holds
/// them, if it holds both; the low 32 bits count.
pub open spec fn retries_of(policy: Value) -> Option<(u32, u32)> {
    match (unsigned_of(policy, "max_retries"@), unsigned_of(policy, "retry_count"@)) {
        (Some(max_retries), Some(retry_count)) => Some(
            ((max_retries % 0x1_0000_0000) as u32, (retry_count % 0x1_0000_0000) as u32),
        ),
        _ => None,
    }
}

/// The members of a retry policy.
pub open spec fn policy_members(max_retries: u32, retry_count: u32) -> Map<Seq<char>, Member> {
    map![
        "max_retries"@ => Member::Unsigned(max_retries as u64),
        "retry_count"@ => Member::Unsigned(retry_count as u64),
    ]
}

/// When a lease that begins at `now` ends: after `execution_timeout_ms`
/// milliseconds, but not after the deadline.
pub open spec fn expiry_of(now: int, execution_timeout_ms: int, deadline: int) -> int {
    if now + execution_timeout_ms * NANOS_PER_MILLI <= deadline {
        now + execution_timeout_ms * NANOS_PER_MILLI
    } else {
        deadline
    }
}

impl ActiveAttempt {
    /// Whether the lease has ended by `now`.
    pub open spec fn is_over(self, now: int) -> bool {
        now >= self.lease_expiry@ || now >= self.deadline@
    }

    /// Whether the task is given up if the attempt fails at `now`, after
    /// `retry_count` of `max_retries` retries.
    pub open spec fn is_last(self, now: int, max_retries: u32, retry_count: u32) -> bool {
        now >= self.deadline@ || retry_count >= max_retries
    }
}

/// Whether the attempt `found`, if one was found, is still under way at `now`.
pub open spec fn is_under_way(found: Option<ActiveAttempt>, now: int) -> bool {
    found matches Some(active) && !active.is_over(now)
}

/// Whether `error` is how a worker is refused whose attempt is not under way at
/// `now`: its lease is not current if no attempt was found, and has expired
/// otherwise.
pub open spec fn refuses(
    found: Option<ActiveAttempt>,
    now: int,
    error: PostgresTaskStoreError,
) -> bool {
    match found {
        None => error is InvalidLease,
        Some(active) => active.is_over(now) && error is LeaseExpired,
    }
}

impl EventInsert {
    /// Whether the row says that `event_type` has happened to the task
    /// `task_id` at `timestamp`, with the details `details`, under an identity
    /// of its own.
    pub open spec fn records(
        self,
        task_id: Seq<char>,
        event_type: Seq<char>,
        timestamp: int,
        details: Map<Seq<char>, Member>,
    ) -> bool {
        &&& random::is_random_uuid(self.id@)
        &&& self.task_id@ == task_id
        &&& self.event_type@ == event_type
        &&& self.timestamp@ == timestamp
        &&& json::members(self.details) == details
    }
}

/// What is wrong with a task that is submitted, if anything is.
pub open spec fn submit_fault(task: TaskView) -> Option<Seq<char>> {
    if !(task.status is Pending) {
        Some("submitted tasks must be pending"@)
    } else if task.workflow_id is None {
        Some("PostgreSQL tasks require a workflow ID"@)
    } else if task.limits.max_execution_time / NANOS_PER_MILLI as nat > i64::MAX {
        Some("execution timeout is too large"@)
    } else if task.limits.max_execution_time / NANOS_PER_MILLI as nat == 0 {
        Some("max execution time must be greater than zero"@)
    } else {
        None
    }
}

impl TaskInsert {
    /// Whether the row is the one of `task`.
    pub open spec fn is_of(self, task: TaskView) -> bool {
        &&& self.id@ == task.id
        &&& task.workflow_id == Some(self.workflow_id@)
        &&& self.activity_type@ == task.activity_type
        &&& self.input@ == task.input
        &&& self.state == TaskState::Ready
        &&& self.pool_id@ == task.pool_id
        &&& self.priority == task.priority
        &&& self.available_at@ == task.created_at
        &&& self.execution_timeout_ms == task.limits.max_execution_time / NANOS_PER_MILLI as nat
        &&& json::members(self.retry_policy) == policy_members(
            task.retry.max_retries,
            task.retry.retry_count,
        )
        &&& self.current_attempt == numbers::signed_32(task.attempt.attempts_started)
        &&& self.created_at@ == task.created_at
        &&& self.deadline@ == task.limits.deadline
    }
}

/// What keeps a lease of a ready task from being written, if anything does.
pub open spec fn lease_fault(row: ReadyRow) -> Option<Seq<char>> {
    if row.execution_timeout_ms < 0 {
        Some("execution timeout is invalid"@)
    } else if row.current_attempt == i32::MAX {
        Some("attempt count overflowed"@)
    } else {
        None
    }
}

impl LeasePlan {
    /// Whether the plan gives the task of `row` to the worker `worker_id`, to be
    /// taken back if the retries of the task cannot be read.
    pub open spec fn grants(
        self,
        row: ReadyRow,
        worker_id: Seq<char>,
        ownership_epoch: u64,
        now: int,
    ) -> bool {
        let expiry = expiry_of(now, row.execution_timeout_ms as int, row.deadline@);
        &&& self.task_id@ == row.id@
        &&& random::is_random_uuid(self.attempt.id@)
        &&& self.attempt.task_id@ == row.id@
        &&& self.attempt.attempt_number == row.current_attempt + 1
        &&& self.attempt.worker_id@ == worker_id
        &&& self.attempt.ownership_epoch == numbers::signed_64(ownership_epoch)
        &&& self.attempt.lease_expiry@ == expiry
        &&& self.attempt.started_at@ == now
        &&& self.event.records(
            row.id@,
            "leased"@,
            now,
            map![
                "worker_id"@ => Member::Text(worker_id),
                "ownership_epoch"@ => Member::Unsigned(ownership_epoch),
            ],
        )
        &&& self.lease@ == LeaseView {
            owner_id: worker_id,
            ownership_epoch,
            leased_at: now,
            expires_at: expiry,
        }
        &&& self.attempts_started == numbers::unsigned_32((row.current_attempt + 1) as i32)
        &&& if retries_of(row.retry_policy) is Some {
            self.refusal is None
        } else {
            self.refusal matches Some(reason) && reason@ == "retry policy is invalid"@
        }
    }
}

/// What keeps a row from being read as a task, if anything does.
pub open spec fn row_fault(row: ReadyRow) -> Option<Seq<char>> {
    if retries_of(row.retry_policy) is None {
        Some("retry policy is invalid"@)
    } else if row.execution_timeout_ms < 0 {
        Some("execution timeout is invalid"@)
    } else {
        None
    }
}

/// The task that a row is read as.
pub open spec fn task_of(
    row: ReadyRow,
    status: StatusView,
    attempts_started: u32,
    read_at: int,
) -> TaskView {
    let (max_retries, retry_count) = retries_of(row.retry_policy)->0;
    TaskView {
        id: row.id@,
        tenant_id: row.tenant_id@,
        pool_id: row.pool_id@,
        activity_type: row.activity_type@,
        input: row.input@,
        workflow_id: Some(row.workflow_id@),
        priority: row.priority,
        created_at: row.created_at@,
        limits: LimitsView {
            max_execution_time: (row.execution_timeout_ms * NANOS_PER_MILLI) as nat,
            deadline: row.deadline@,
        },
        retry: RetryMetadata { retry_count, max_retries },
        attempt: AttemptView { attempts_started, last_attempt_at: Some(read_at) },
        status,
    }
}

impl RenewPlan {
    /// Whether the plan renews the lease that `worker_id` holds on `task_id`.
    pub open spec fn renews(
        self,
        active: ActiveAttempt,
        task_id: Seq<char>,
        worker_id: Seq<char>,
        ownership_epoch: u64,
        now: int,
    ) -> bool {
        &&& self.task_id@ == task_id
        &&& self.worker_id@ == worker_id
        &&& self.ownership_epoch == numbers::signed_64(ownership_epoch)
        &&& self.lease_expiry@ == expiry_of(
            now,
            active.execution_timeout_ms as int,
            active.deadline@,
        )
        &&& self.event.records(
            task_id,
            "lease_renewed"@,
            now,
            map!["ownership_epoch"@ => Member::Unsigned(ownership_epoch)],
        )
    }
}

impl FinishPlan {
    /// Whether the plan ends the task `task_id` in the state `state`.
    pub open spec fn finishes(
        self,
        task_id: Seq<char>,
        worker_id: Seq<char>,
        ownership_epoch: u64,
        now: int,
        state: TaskState,
        error: Option<Seq<char>>,
    ) -> bool {
        &&& self.task_id@ == task_id
        &&& self.worker_id@ == worker_id
        &&& self.ownership_epoch == numbers::signed_64(ownership_epoch)
        &&& self.state == state
        &&& self.finished_at@ == now
        &&& (match self.error {
            Some(message) => Some(message@),
            None => None,
        }) == error
        &&& self.event.records(
            task_id,
            state.name(),
            now,
            map![
                "error"@ => match error {
                    Some(message) => Member::Text(message),
                    None => Member::Null,
                },
            ],
        )
    }
}

impl TransitionPlan {
    /// Whether the plan ends an attempt at `task_id` that failed at `now`: the
    /// task waits again with one more retry, or is given up.
    pub open spec fn follows(
        self,
        active: ActiveAttempt,
        task_id: Seq<char>,
        now: int,
        message: Seq<char>,
    ) -> bool {
        let (max_retries, retry_count) = retries_of(active.retry_policy)->0;
        let last = active.is_last(now, max_retries, retry_count);
        let state = if last {
            TaskState::Failed
        } else {
            TaskState::Ready
        };
        let next_count = if last {
            retry_count
        } else {
            (retry_count + 1) as u32
        };
        &&& self.task_id@ == task_id
        &&& self.state == state
        &&& self.available_at@ == now
        &&& json::members(self.retry_policy) == policy_members(
            max_retries,
            next_count,
        )
        &&& self.finished_at@ == now
        &&& self.error@ == message
        &&& self.event.records(
            task_id,
            state.name(),
            now,
            map![
                "message"@ => Member::Text(message),
                "retry_count"@ => Member::Unsigned(next_count as u64),
            ],
        )
    }
}

/// A store that keeps its tasks in PostgreSQL. Its view is the address of the
/// database.
pub struct PostgresTaskStore {
    database_url: String,
}

impl View for PostgresTaskStore {
    type V = Seq<char>;

    closed spec fn view(&self) -> Seq<char> {
        self.database_url@
    }
}

impl PostgresTaskStore {
    /// A store in the database at `database_url`.
    pub fn new<D: Into<String>>(database_url: D) -> (result: Self)
        ensures
            exists|url: String| #[trigger]
                call_ensures(<D as Into<String>>::into, (database_url,), url) && result@ == url@,
    {
        PostgresTaskStore { database_url: database_url.into() }
    }

    /// The address of the database.
    pub fn database_url(&self) -> (result: &str)
        ensures
            result@ == self@,
    {
        self.database_url.as_str()
    }

    /// The row to be added for `task`, if it can be submitted.
    pub fn submit(&self, task: &Task) -> (result: Result<TaskInsert, PostgresTaskStoreError>)
        ensures
            match result {
                Ok(row) => submit_fault(task@) is None && row.is_of(task@),
                Err(error) => submit_fault(task@) matches Some(reason) && error.is_invalid_task(
                    reason,
                ),
            },
    {
        match &task.status {
            TaskStatus::Pending { .. } => {},
            _ => {
                return Err(PostgresTaskStoreError::invalid_task("submitted tasks must be pending"));
            },
        }
        let workflow_id: String = match &task.workflow_id {
            Some(workflow_id) => workflow_id.0.clone(),
            None => {
                return Err(
                    PostgresTaskStoreError::invalid_task("PostgreSQL tasks require a workflow ID"),
                );
            },
        };
        let millis: u128 = task.limits.max_execution_time.as_millis();
        if millis > i64::MAX as u128 {
            return Err(PostgresTaskStoreError::invalid_task("execution timeout is too large"));
        }
        if millis == 0 {
            return Err(
                PostgresTaskStoreError::invalid_task(
                    "max execution time must be greater than zero",
                ),
            );
        }
        let input: Vec<u8> = task.input.clone();
        assert(input@ =~= task.input@);
        Ok(
            TaskInsert {
                id: task.id.0.clone(),
                workflow_id,
                activity_type: task.activity_type.0.clone(),
                input,
                state: TaskState::Ready,
                pool_id: task.pool_id.0.clone(),
                priority: task.priority,
                available_at: task.created_at,
                execution_timeout_ms: millis as i64,
                retry_policy: retry_policy(task.retry.max_retries, task.retry.retry_count),
                current_attempt: numbers::to_signed_32(task.attempt.attempts_started),
                created_at: task.created_at,
                deadline: task.limits.deadline,
            },
        )
    }

    /// What is written when the task of `row` goes to the worker `worker_id` at
    /// `now`. A task whose retries cannot be read is refused after that, by
    /// [`Self::leased_task`].
    pub fn lease_next(
        &self,
        row: &ReadyRow,
        worker_id: &WorkerId,
        ownership_epoch: u64,
        now: SystemTime,
    ) -> (result: Result<LeasePlan, PostgresTaskStoreError>)
        ensures
            match result {
                Ok(plan) => lease_fault(*row) is None && plan.grants(
                    *row,
                    worker_id@,
                    ownership_epoch,
                    now@,
                ),
                Err(error) => lease_fault(*row) matches Some(reason) && error.is_invalid_task(
                    reason,
                ),
            },
    {
        let lease_expiry: SystemTime = match capped_expiry(
            now,
            row.execution_timeout_ms,
            row.deadline,
        ) {
            Ok(expiry) => expiry,
            Err(error) => {
                return Err(error);
            },
        };
        let attempt_number: i32 = match row.current_attempt.checked_add(1) {
            Some(number) => number,
            None => {
                return Err(PostgresTaskStoreError::invalid_task("attempt count overflowed"));
            },
        };
        let attempt = attempt_with_id(
            random::new_uuid(),
            row.id.as_str(),
            attempt_number,
            worker_id,
            ownership_epoch,
            lease_expiry,
            now,
        );
        let mut details = json::new_object();
        json::put_text(&mut details, "worker_id", Some(worker_id.0.clone()));
        json::put_unsigned(&mut details, "ownership_epoch", ownership_epoch);
        let event = write_event(row.id.as_str(), "leased", now, json::into_document(details));
        proof {
            assert(json::members(event.details) =~= map![
                "worker_id"@ => Member::Text(worker_id@),
                "ownership_epoch"@ => Member::Unsigned(ownership_epoch),
            ]);
        }
        let refusal: Option<String> = match retry_values(&row.retry_policy) {
            Ok(_) => None,
            Err(_) => Some("retry policy is invalid".into()),
        };
        Ok(
            LeasePlan {
                task_id: row.id.clone(),
                attempt,
                event,
                lease: Lease {
                    owner_id: LeaseOwnerId(worker_id.0.clone()),
                    ownership_epoch,
                    leased_at: now,
                    expires_at: lease_expiry,
                },
                attempts_started: numbers::to_unsigned_32(attempt_number),
                refusal,
            },
        )
    }

    /// The end of a lease: the task of `row` as the worker gets it, read at
    /// `read_at`, or why the lease is not committed. `written` is what came of
    /// writing `plan`; an error of the database goes before a refusal.
    pub fn leased_task(
        &self,
        row: &ReadyRow,
        plan: &LeasePlan,
        written: Result<(), tokio_postgres::Error>,
        read_at: SystemTime,
    ) -> (result: Result<Task, PostgresTaskStoreError>)
        ensures
            match (written, plan.refusal) {
                (Err(fault), _) => result == Err::<Task, _>(
                    PostgresTaskStoreError::Database(fault),
                ),
                (Ok(()), Some(reason)) => result matches Err(error) && error.is_invalid_task(
                    reason@,
                ),
                (Ok(()), None) => match result {
                    Ok(task) => row_fault(*row) is None && task@ == task_of(
                        *row,
                        StatusView::Leased(plan.lease@),
                        plan.attempts_started,
                        read_at@,
                    ),
                    Err(error) => row_fault(*row) matches Some(reason) && error.is_invalid_task(
                        reason,
                    ),
                },
            },
    {
        if let Err(fault) = written {
            return Err(PostgresTaskStoreError::Database(fault));
        }
        match &plan.refusal {
            Some(reason) => Err(PostgresTaskStoreError::InvalidTask(reason.clone())),
            None => task_from_row(
                row,
                TaskStatus::Leased(plan.lease.clone()),
                plan.attempts_started,
                read_at,
            ),
        }
    }

    /// What is written when the worker `worker_id` renews its lease on
    /// `task_id` at `now`.
    pub fn renew(
        &self,
        found: Option<ActiveAttempt>,
        task_id: &TaskId,
        worker_id: &WorkerId,
        ownership_epoch: u64,
        now: SystemTime,
    ) -> (result: Result<RenewPlan, PostgresTaskStoreError>)
        ensures
            match (found, result) {
                (None, Err(error)) => error is InvalidLease,
                (Some(active), Err(error)) => if active.is_over(now@) {
                    error is LeaseExpired
                } else {
                    active.execution_timeout_ms < 0 && error.is_invalid_task(
                        "execution timeout is invalid"@,
                    )
                },
                (Some(active), Ok(plan)) => {
                    &&& !active.is_over(now@)
                    &&& active.execution_timeout_ms >= 0
                    &&& plan.renews(active, task_id@, worker_id@, ownership_epoch, now@)
                },
                (None, Ok(_)) => false,
            },
    {
        let active: ActiveAttempt = match active_attempt(found) {
            Ok(active) => active,
            Err(error) => {
                return Err(error);
            },
        };
        if let Err(error) = ensure_active(&active, now) {
            return Err(error);
        }
        let lease_expiry: SystemTime = match capped_expiry(
            now,
            active.execution_timeout_ms,
            active.deadline,
        ) {
            Ok(expiry) => expiry,
            Err(error) => {
                return Err(error);
            },
        };
        let mut details = json::new_object();
        json::put_unsigned(&mut details, "ownership_epoch", ownership_epoch);
        let event = write_event(
            task_id.0.as_str(),
            "lease_renewed",
            now,
            json::into_document(details),
        );
        proof {
            assert(json::members(event.details) =~= map![
                "ownership_epoch"@ => Member::Unsigned(ownership_epoch),
            ]);
        }
        Ok(
            RenewPlan {
                task_id: task_id.0.clone(),
                worker_id: worker_id.0.clone(),
                ownership_epoch: numbers::to_signed_64(ownership_epoch),
                lease_expiry,
                event,
            },
        )
    }

    /// What is written when the worker `worker_id` has done `task_id` at `now`.
    pub fn complete(
        &self,
        found: Option<ActiveAttempt>,
        task_id: &TaskId,
        worker_id: &WorkerId,
        ownership_epoch: u64,
        now: SystemTime,
    ) -> (result: Result<FinishPlan, PostgresTaskStoreError>)
        ensures
            match result {
                Ok(plan) => is_under_way(found, now@) && plan.finishes(
                    task_id@,
                    worker_id@,
                    ownership_epoch,
                    now@,
                    TaskState::Completed,
                    None,
                ),
                Err(error) => refuses(found, now@, error),
            },
    {
        self.finish(found, task_id, worker_id, ownership_epoch, now, TaskState::Completed, None)
    }

    /// What is written when the worker `worker_id` gives up `task_id` at `now`.
    pub fn fail<M: Into<String>>(
        &self,
        found: Option<ActiveAttempt>,
        task_id: &TaskId,
        worker_id: &WorkerId,
        ownership_epoch: u64,
        now: SystemTime,
        message: M,
    ) -> (result: Result<FinishPlan, PostgresTaskStoreError>)
        ensures
            match result {
                Ok(plan) => is_under_way(found, now@) && exists|reason: String| #[trigger]
                    call_ensures(<M as Into<String>>::into, (message,), reason) && plan.finishes(
                        task_id@,
                        worker_id@,
                        ownership_epoch,
                        now@,
                        TaskState::Failed,
                        Some(reason@),
                    ),
                Err(error) => refuses(found, now@, error),
            },
    {
        let reason: String = message.into();
        self.finish(
            found,
            task_id,
            worker_id,
            ownership_epoch,
            now,
            TaskState::Failed,
            Some(reason),
        )
    }

    /// What is written when an attempt at `task_id` has failed at `now`.
    pub fn retry<M: Into<String>>(
        &self,
        found: Option<ActiveAttempt>,
        task_id: &TaskId,
        now: SystemTime,
        message: M,
    ) -> (result: Result<TransitionPlan, PostgresTaskStoreError>)
        ensures
            match (found, result) {
                (None, Err(error)) => error is InvalidLease,
                (Some(active), Err(error)) => if active.is_over(now@) {
                    error is LeaseExpired
                } else {
                    retries_of(active.retry_policy) is None && error.is_invalid_task(
                        "retry policy is invalid"@,
                    )
                },
                (Some(active), Ok(plan)) => {
                    &&& !active.is_over(now@)
                    &&& retries_of(active.retry_policy) is Some
                    &&& exists|reason: String| #[trigger]
                        call_ensures(<M as Into<String>>::into, (message,), reason)
                            && plan.follows(active, task_id@, now@, reason@)
                },
                (None, Ok(_)) => false,
            },
    {
        let active: ActiveAttempt = match active_attempt(found) {
            Ok(active) => active,
            Err(error) => {
                return Err(error);
            },
        };
        if let Err(error) = ensure_active(&active, now) {
            return Err(error);
        }
        let reason: String = message.into();
        transition_to_retry_or_failure(task_id, &active, now, reason)
    }

    /// What is written for the leased tasks `rows` that have run out of time by
    /// `now`, one after the other, up to the first whose retries cannot be read.
    pub fn recover_expired(&self, rows: &Vec<ExpiredRow>, now: SystemTime) -> (result: RecoveryPlan)
        ensures
            result.recovers(rows@, now@),
    {
        let mut transitions: Vec<TransitionPlan> = Vec::new();
        let mut i: usize = 0;
        while i < rows.len()
            invariant
                i <= rows.len(),
                transitions@.len() == i,
                forall|j: int|
                    0 <= j < i ==> {
                        &&& retries_of((#[trigger] rows@[j]).active.retry_policy) is Some
                        &&& transitions@[j].follows(
                            rows@[j].active,
                            rows@[j].task_id@,
                            now@,
                            "lease expired"@,
                        )
                    },
            decreases rows.len() - i,
        {
            let row = &rows[i];
            match transition_to_retry_or_failure(
                &row.task_id,
                &row.active,
                now,
                "lease expired".into(),
            ) {
                Ok(plan) => {
                    transitions.push(plan);
                },
                Err(_) => {
                    return RecoveryPlan {
                        transitions,
                        refusal: Some("retry policy is invalid".into()),
                    };
                },
            }
            i = i + 1;
        }
        RecoveryPlan { transitions, refusal: None }
    }

    /// How many leased tasks were recovered, or why the recovery is not
    /// committed. `written` is what came of writing the transitions of `plan`;
    /// an error of the database goes before a refusal.
    pub fn recovered(&self, plan: &RecoveryPlan, written: Result<(), tokio_postgres::Error>) -> (
    result: Result<usize, PostgresTaskStoreError>)
        ensures
            match (written, plan.refusal) {
                (Err(fault), _) => result == Err::<usize, _>(
                    PostgresTaskStoreError::Database(fault),
                ),
                (Ok(()), Some(reason)) => result matches Err(error) && error.is_invalid_task(
                    reason@,
                ),
                (Ok(()), None) => result == Ok::<_, PostgresTaskStoreError>(
                    plan.transitions@.len() as usize,
                ),
            },
    {
        if let Err(fault) = written {
            return Err(PostgresTaskStoreError::Database(fault));
        }
        match &plan.refusal {
            Some(reason) => Err(PostgresTaskStoreError::InvalidTask(reason.clone())),
            None => Ok(plan.transitions.len()),
        }
    }

    /// How many tasks were recovered: those that were leased and those that
    /// were given up while they waited.
    pub fn recovered_count(&self, leased: usize, given_up: u64) -> (result: usize)
        requires
            leased + given_up <= usize::MAX,
        ensures
            result == leased + given_up,
    {
        leased + given_up as usize
    }

    /// What is written when a worker is done with a task, in one way or the
    /// other.
    fn finish(
        &self,
        found: Option<ActiveAttempt>,
        task_id: &TaskId,
        worker_id: &WorkerId,
        ownership_epoch: u64,
        now: SystemTime,
        state: TaskState,
        error: Option<String>,
    ) -> (result: Result<FinishPlan, PostgresTaskStoreError>)
        ensures
            match result {
                Ok(plan) => is_under_way(found, now@) && plan.finishes(
                    task_id@,
                    worker_id@,
                    ownership_epoch,
                    now@,
                    state,
                    match error {
                        Some(message) => Some(message@),
                        None => None,
                    },
                ),
                Err(fault) => refuses(found, now@, fault),
            },
    {
        let active: ActiveAttempt = match active_attempt(found) {
            Ok(active) => active,
            Err(fault) => {
                return Err(fault);
            },
        };
        if let Err(fault) = ensure_active(&active, now) {
            return Err(fault);
        }
        let mut details = json::new_object();
        let copy: Option<String> = match &error {
            Some(message) => Some(message.clone()),
            None => None,
        };
        json::put_text(&mut details, "error", copy);
        let event = write_event(
            task_id.0.as_str(),
            state.as_str(),
            now,
            json::into_document(details),
        );
        proof {
            assert(json::members(event.details) =~= map![
                "error"@ => match error {
                    Some(message) => Member::Text(message@),
                    None => Member::Null,
                },
            ]);
        }
        Ok(
            FinishPlan {
                task_id: task_id.0.clone(),
                worker_id: worker_id.0.clone(),
                ownership_epoch: numbers::to_signed_64(ownership_epoch),
                state,
                finished_at: now,
                error,
                event,
            },
        )
    }
}

/// What the attempt of the worker `worker_id` at `task_id` is found by.
pub fn attempt_key(task_id: &TaskId, worker_id: &WorkerId, ownership_epoch: u64) -> (result:
    AttemptKey)
    ensures
        result.task_id@ == task_id@,
        result.worker_id@ == worker_id@,
        result.ownership_epoch == numbers::signed_64(ownership_epoch),
{
    AttemptKey {
        task_id: task_id.0.clone(),
        worker_id: worker_id.0.clone(),
        ownership_epoch: numbers::to_signed_64(ownership_epoch),
    }
}

/// The attempt that the database has found under way for a worker, if it has
/// found one.
pub fn active_attempt(row: Option<ActiveAttempt>) -> (result: Result<
    ActiveAttempt,
    PostgresTaskStoreError,
>)
    ensures
        match row {
            Some(active) => result == Ok::<_, PostgresTaskStoreError>(active),
            None => result matches Err(error) && error is InvalidLease,
        },
{
    match row {
        Some(active) => Ok(active),
        None => Err(PostgresTaskStoreError::InvalidLease),
    }
}

/// Refuses an attempt whose lease has ended by `now`.
pub fn ensure_active(active: &ActiveAttempt, now: SystemTime) -> (result: Result<
    (),
    PostgresTaskStoreError,
>)
    ensures
        result is Err == active.is_over(now@),
        result matches Err(error) ==> error is LeaseExpired,
{
    if !now.is_before(&active.lease_expiry) || !now.is_before(&active.deadline) {
        return Err(PostgresTaskStoreError::LeaseExpired);
    }
    Ok(())
}

/// What is written when the attempt `active` at `task_id` has failed at `now`
/// for the reason `message`.
pub fn transition_to_retry_or_failure(
    task_id: &TaskId,
    active: &ActiveAttempt,
    now: SystemTime,
    message: String,
) -> (result: Result<TransitionPlan, PostgresTaskStoreError>)
    ensures
        match result {
            Ok(plan) => retries_of(active.retry_policy) is Some && plan.follows(
                *active,
                task_id@,
                now@,
                message@,
            ),
            Err(error) => retries_of(active.retry_policy) is None && error.is_invalid_task(
                "retry policy is invalid"@,
            ),
        },
{
    let (max_retries, retry_count): (u32, u32) = match retry_values(&active.retry_policy) {
        Ok(retries) => retries,
        Err(error) => {
            return Err(error);
        },
    };
    let failed: bool = !now.is_before(&active.deadline) || retry_count >= max_retries;
    let state: TaskState = if failed {
        TaskState::Failed
    } else {
        TaskState::Ready
    };
    let next_count: u32 = retry_count.saturating_add(
        if failed {
            0
        } else {
            1
        },
    );
    let mut details = json::new_object();
    json::put_text(&mut details, "message", Some(message.clone()));
    json::put_unsigned(&mut details, "retry_count", next_count as u64);
    let event = write_event(
        task_id.0.as_str(),
        state.as_str(),
        now,
        json::into_document(details),
    );
    proof {
        assert(json::members(event.details) =~= map![
            "message"@ => Member::Text(message@),
            "retry_count"@ => Member::Unsigned(next_count as u64),
        ]);
    }
    Ok(
        TransitionPlan {
            task_id: task_id.0.clone(),
            state,
            available_at: now,
            retry_policy: retry_policy(max_retries, next_count),
            finished_at: now,
            error: message,
            event,
        },
    )
}

/// The row to be added for an attempt, under the identity `id`.
pub fn attempt_with_id(
    id: String,
    task_id: &str,
    attempt_number: i32,
    worker_id: &WorkerId,
    ownership_epoch: u64,
    lease_expiry: SystemTime,
    started_at: SystemTime,
) -> (result: AttemptInsert)
    ensures
        result.id == id,
        result.task_id@ == task_id@,
        result.attempt_number == attempt_number,
        result.worker_id@ == worker_id@,
        result.ownership_epoch == numbers::signed_64(ownership_epoch),
        result.lease_expiry == lease_expiry,
        result.started_at == started_at,
{
    AttemptInsert {
        id,
        task_id: task_id.into(),
        attempt_number,
        worker_id: worker_id.0.clone(),
        ownership_epoch: numbers::to_signed_64(ownership_epoch),
        lease_expiry,
        started_at,
    }
}

/// The row to be added for an event, under a random identity.
pub fn write_event(task_id: &str, event_type: &str, now: SystemTime, details: Value) -> (result:
    EventInsert)
    ensures
        result.records(task_id@, event_type@, now@, json::members(details)),
{
    event_with_id(random::new_uuid(), task_id, event_type, now, details)
}

/// The row to be added for an event, under the identity `id`.
pub fn event_with_id(
    id: String,
    task_id: &str,
    event_type: &str,
    now: SystemTime,
    details: Value,
) -> (result: EventInsert)
    ensures
        result.id == id,
        result.task_id@ == task_id@,
        result.event_type@ == event_type@,
        result.timestamp == now,
        result.details == details,
{
    EventInsert {
        id,
        task_id: task_id.into(),
        event_type: event_type.into(),
        timestamp: now,
        details,
    }
}

/// The task that `row` stands for, in the status `status`, read at `read_at`.
pub fn task_from_row(
    row: &ReadyRow,
    status: TaskStatus,
    attempts_started: u32,
    read_at: SystemTime,
) -> (result: Result<Task, PostgresTaskStoreError>)
    ensures
        match result {
            Ok(task) => row_fault(*row) is None && task@ == task_of(
                *row,
                status@,
                attempts_started,
                read_at@,
            ),
            Err(error) => row_fault(*row) matches Some(reason) && error.is_invalid_task(reason),
        },
{
    let (max_retries, retry_count): (u32, u32) = match retry_values(&row.retry_policy) {
        Ok(retries) => retries,
        Err(error) => {
            return Err(error);
        },
    };
    let max_execution_time: Duration = match duration_from_ms(row.execution_timeout_ms) {
        Ok(duration) => duration,
        Err(error) => {
            return Err(error);
        },
    };
    let input: Vec<u8> = row.input.clone();
    assert(input@ =~= row.input@);
    Ok(
        Task {
            id: TaskId(row.id.clone()),
            tenant_id: TenantId(row.tenant_id.clone()),
            pool_id: PoolId(row.pool_id.clone()),
            activity_type: ActivityType(row.activity_type.clone()),
            input,
            workflow_id: Some(WorkflowId(row.workflow_id.clone())),
            priority: row.priority,
            created_at: row.created_at,
            limits: TaskLimits { max_execution_time, deadline: row.deadline },
            retry: RetryMetadata { retry_count, max_retries },
            attempt: AttemptMetadata { attempts_started, last_attempt_at: Some(read_at) },
            status,
        },
    )
}

/// The retries that are allowed and those that were made, as `policy` holds
/// them.
pub fn retry_values(policy: &Value) -> (result: Result<(u32, u32), PostgresTaskStoreError>)
    ensures
        match result {
            Ok((max_retries, retry_count)) => retries_of(*policy) == Some(
                (max_retries, retry_count),
            ),
            Err(error) => retries_of(*policy) is None && error.is_invalid_task(
                "retry policy is invalid"@,
            ),
        },
{
    match (
        json::unsigned_member(policy, "max_retries"),
        json::unsigned_member(policy, "retry_count"),
    ) {
        (Some(max_retries), Some(retry_count)) => Ok(
            (numbers::low_32(max_retries), numbers::low_32(retry_count)),
        ),
        _ => Err(PostgresTaskStoreError::invalid_task("retry policy is invalid")),
    }
}

/// The retry policy with these retries.
pub fn retry_policy(max_retries: u32, retry_count: u32) -> (result: Value)
    ensures
        json::members(result) == policy_members(max_retries, retry_count),
{
    let mut policy = json::new_object();
    json::put_unsigned(&mut policy, "max_retries", max_retries as u64);
    json::put_unsigned(&mut policy, "retry_count", retry_count as u64);
    let result = json::into_document(policy);
    assert(json::members(result) =~= policy_members(max_retries, retry_count));
    result
}

/// When a lease that begins at `now` ends.
pub fn capped_expiry(
    now: SystemTime,
    execution_timeout_ms: i64,
    deadline: SystemTime,
) -> (result: Result<SystemTime, PostgresTaskStoreError>)
    ensures
        match result {
            Ok(expiry) => execution_timeout_ms >= 0 && expiry@ == expiry_of(
                now@,
                execution_timeout_ms as int,
                deadline@,
            ),
            Err(error) => execution_timeout_ms < 0 && error.is_invalid_task(
                "execution timeout is invalid"@,
            ),
        },
{
    match duration_from_ms(execution_timeout_ms) {
        Ok(duration) => Ok(now.add_up_to(duration, deadline)),
        Err(error) => Err(error),
    }
}

/// The span of `milliseconds` milliseconds, if they are not negative.
pub fn duration_from_ms(milliseconds: i64) -> (result: Result<Duration, PostgresTaskStoreError>)
    ensures
        match result {
            Ok(duration) => milliseconds >= 0 && duration@ == milliseconds * NANOS_PER_MILLI,
            Err(error) => milliseconds < 0 && error.is_invalid_task(
                "execution timeout is invalid"@,
            ),
        },
{
    if milliseconds < 0 {
        Err(PostgresTaskStoreError::invalid_task("execution timeout is invalid"))
    } else {
        Ok(Duration::from_millis(milliseconds as u64))
    }
}

} // verus!
