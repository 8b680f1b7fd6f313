//! What the calls of a store in PostgreSQL do, said of the calls themselves: what
//! is answered and what is to be written for each request.

use serde_json::Value;
use vstd::prelude::*;

use super::calls;
use super::postgres;
use super::postgres::{
    ActiveAttempt, AttemptInsert, AttemptKey, EventInsert, ExpiredRow, FinishPlan, LeasePlan,
    PostgresTaskStore, PostgresTaskStoreError, ReadyRow, RecoveryPlan, RenewPlan, TaskInsert,
    TaskState, TransitionPlan,
};
use super::postgres_promises;
use crate::domain::{StatusView, Task, TaskId, TaskStatus};
use crate::outside::json;
use crate::outside::json::Member;
use crate::outside::random;
use crate::time::{Duration, SystemTime};
use crate::worker::WorkerId;

verus! {

/// Whether `result` refuses a request because the task is invalid, for the
/// reason `reason`.
pub open spec fn is_refused<Reply>(
    result: Result<Reply, PostgresTaskStoreError>,
    reason: Seq<char>,
) -> bool {
    result matches Err(PostgresTaskStoreError::InvalidTask(message)) && message@ == reason
}

/// The counts in a retry policy, as they are written.
pub open spec fn counts_in(policy: Value) -> Option<(u64, u64)> {
    match (json::members(policy).get("max_retries"@), json::members(policy).get("retry_count"@)) {
        (Some(Member::Unsigned(max_retries)), Some(Member::Unsigned(retry_count))) => Some(
            (max_retries, retry_count),
        ),
        _ => None,
    }
}

/// Whether an attempt was found and neither its lease nor the deadline has come
/// to its end.
pub open spec fn is_live(found: Option<ActiveAttempt>, now: int) -> bool {
    found matches Some(active) && now < active.lease_expiry@ && now < active.deadline@
}

/// A store is in the database that it was made for.
pub proof fn store_knows_its_database(database_url: String, store: PostgresTaskStore, url: &str)
    requires
        call_ensures(PostgresTaskStore::new::<String>, (database_url,), store),
        call_ensures(PostgresTaskStore::database_url, (&store,), url),
    ensures
        url@ == database_url@,
{
}

/// A task is accepted if and only if it is pending, has a workflow, and may take
/// from one millisecond to as many as can be counted; nothing else of it matters.
/// A task that is refused is told the first of these that is wrong.
pub proof fn submit_accepts_what_the_database_can_keep(
    store: PostgresTaskStore,
    task: Task,
    result: Result<TaskInsert, PostgresTaskStoreError>,
)
    requires
        call_ensures(PostgresTaskStore::submit, (&store, &task), result),
    ensures
        result is Ok <==> task.status is Pending && task.workflow_id is Some && 1_000_000
            <= task.limits.max_execution_time@ < 0x8000_0000_0000_0000 * 1_000_000,
        result is Err ==> is_refused(
            result,
            if !(task.status is Pending) {
                "submitted tasks must be pending"@
            } else if task.workflow_id is None {
                "PostgreSQL tasks require a workflow ID"@
            } else if task.limits.max_execution_time@ < 1_000_000 {
                "max execution time must be greater than zero"@
            } else {
                "execution timeout is too large"@
            },
        ),
{
}

/// The row of a task that is accepted says what the task says.
pub proof fn submit_writes_what_the_task_says(
    store: PostgresTaskStore,
    task: Task,
    row: TaskInsert,
)
    requires
        call_ensures(PostgresTaskStore::submit, (&store, &task), Ok(row)),
    ensures
        row.id@ == task.id.0@,
        task.workflow_id matches Some(workflow_id) && row.workflow_id@ == workflow_id.0@,
        row.activity_type@ == task.activity_type.0@,
        row.input@ == task.input@,
        row.state == TaskState::Ready,
        row.pool_id@ == task.pool_id.0@,
        row.priority == task.priority,
        row.available_at@ == task.created_at@,
        row.created_at@ == task.created_at@,
        row.deadline@ == task.limits.deadline@,
        row.execution_timeout_ms * 1_000_000 <= task.limits.max_execution_time@ < (
        row.execution_timeout_ms + 1) * 1_000_000,
        counts_in(row.retry_policy) == Some(
            (task.retry.max_retries as u64, task.retry.retry_count as u64),
        ),
        (row.current_attempt - task.attempt.attempts_started) % 0x1_0000_0000 == 0,
{
    postgres_promises::row_says_what_the_task_says(task@, row);
    postgres_promises::written_policy_holds_both_counts(
        task.retry.max_retries,
        task.retry.retry_count,
    );
}

/// A lease is written if and only if the time that the row allows is not negative
/// and one more attempt can be counted. It is one of the worker that asks, as it
/// asks, as the next attempt, until the earlier of the time that an attempt may
/// take and the deadline; and it is taken back if the retries cannot be read.
pub proof fn lease_next_grants_the_row(
    store: PostgresTaskStore,
    row: ReadyRow,
    worker_id: WorkerId,
    ownership_epoch: u64,
    now: SystemTime,
    result: Result<LeasePlan, PostgresTaskStoreError>,
)
    requires
        call_ensures(
            PostgresTaskStore::lease_next,
            (&store, &row, &worker_id, ownership_epoch, now),
            result,
        ),
    ensures
        result is Ok <==> row.execution_timeout_ms >= 0 && row.current_attempt < i32::MAX,
        result is Err ==> is_refused(
            result,
            if row.execution_timeout_ms < 0 {
                "execution timeout is invalid"@
            } else {
                "attempt count overflowed"@
            },
        ),
        result matches Ok(plan) ==> {
            &&& plan.task_id@ == row.id@
            &&& random::is_random_uuid(plan.attempt.id@)
            &&& plan.attempt.task_id@ == row.id@
            &&& plan.attempt.attempt_number == row.current_attempt + 1
            &&& plan.attempt.worker_id@ == worker_id.0@
            &&& (plan.attempt.ownership_epoch - ownership_epoch) % 0x1_0000_0000_0000_0000 == 0
            &&& plan.attempt.started_at@ == now@
            &&& calls::is_earlier_end(
                plan.attempt.lease_expiry@,
                now@,
                row.execution_timeout_ms * 1_000_000,
                row.deadline@,
            )
            &&& plan.lease.owner_id.0@ == worker_id.0@
            &&& plan.lease.ownership_epoch == ownership_epoch
            &&& plan.lease.leased_at@ == now@
            &&& plan.lease.expires_at@ == plan.attempt.lease_expiry@
            &&& random::is_random_uuid(plan.event.id@)
            &&& plan.event.task_id@ == row.id@
            &&& plan.event.event_type@ == "leased"@
            &&& plan.event.timestamp@ == now@
            &&& json::members(plan.event.details) == map![
                "worker_id"@ => Member::Text(worker_id.0@),
                "ownership_epoch"@ => Member::Unsigned(ownership_epoch),
            ]
            &&& (plan.attempts_started - plan.attempt.attempt_number) % 0x1_0000_0000 == 0
            &&& plan.refusal is None <==> counts_in(row.retry_policy) is Some
            &&& plan.refusal matches Some(reason) ==> reason@ == "retry policy is invalid"@
        },
{
}

/// A lease ends with an error of the database if there was one, with the refusal
/// of the plan if it has one, and else with the task that the row says, leased as
/// planned.
pub proof fn leased_task_is_what_the_row_says(
    store: PostgresTaskStore,
    row: ReadyRow,
    plan: LeasePlan,
    written: Result<(), tokio_postgres::Error>,
    read_at: SystemTime,
    result: Result<Task, PostgresTaskStoreError>,
)
    requires
        call_ensures(
            PostgresTaskStore::leased_task,
            (&store, &row, &plan, written, read_at),
            result,
        ),
    ensures
        result is Ok <==> written is Ok && plan.refusal is None && counts_in(
            row.retry_policy,
        ) is Some && row.execution_timeout_ms >= 0,
        written matches Err(fault) ==> result == Err::<Task, _>(
            PostgresTaskStoreError::Database(fault),
        ),
        written is Ok ==> (plan.refusal matches Some(reason) ==> is_refused(result, reason@)),
        written is Ok && plan.refusal is None && result is Err ==> is_refused(
            result,
            if counts_in(row.retry_policy) is None {
                "retry policy is invalid"@
            } else {
                "execution timeout is invalid"@
            },
        ),
        result matches Ok(task) ==> is_task_of(row, task, plan.attempts_started, read_at@)
            && task@.status == StatusView::Leased(plan.lease@),
{
}

/// Whether `task` says what `row` says, with `attempts_started` attempts, the last
/// of them at `read_at`.
pub open spec fn is_task_of(row: ReadyRow, task: Task, attempts_started: u32, read_at: int) -> bool {
    &&& task.id.0@ == row.id@
    &&& task.tenant_id.0@ == row.tenant_id@
    &&& task.pool_id.0@ == row.pool_id@
    &&& task.activity_type.0@ == row.activity_type@
    &&& task.input@ == row.input@
    &&& task.workflow_id matches Some(workflow_id) && workflow_id.0@ == row.workflow_id@
    &&& task.priority == row.priority
    &&& task.created_at@ == row.created_at@
    &&& task.limits.max_execution_time@ == row.execution_timeout_ms * 1_000_000
    &&& task.limits.deadline@ == row.deadline@
    &&& counts_in(row.retry_policy) matches Some((max_retries, retry_count)) && {
        &&& task.retry.max_retries == max_retries % 0x1_0000_0000
        &&& task.retry.retry_count == retry_count % 0x1_0000_0000
    }
    &&& task.attempt.attempts_started == attempts_started
    &&& task.attempt.last_attempt_at matches Some(at) && at@ == read_at
}

/// A row is read as a task if and only if its retries can be read and the time it
/// allows is not negative. The task says what the row says.
pub proof fn task_from_row_says_what_the_row_says(
    row: ReadyRow,
    status: TaskStatus,
    attempts_started: u32,
    read_at: SystemTime,
    result: Result<Task, PostgresTaskStoreError>,
)
    requires
        call_ensures(postgres::task_from_row, (&row, status, attempts_started, read_at), result),
    ensures
        result is Ok <==> counts_in(row.retry_policy) is Some && row.execution_timeout_ms >= 0,
        result is Err ==> is_refused(
            result,
            if counts_in(row.retry_policy) is None {
                "retry policy is invalid"@
            } else {
                "execution timeout is invalid"@
            },
        ),
        result matches Ok(task) ==> is_task_of(row, task, attempts_started, read_at@)
            && task@.status == status@,
{
}

/// The counts are read from a policy that holds them, by their low 32 bits, and a
/// policy that is written holds the counts that it was written with.
pub proof fn policy_is_read_as_it_was_written(
    policy: Value,
    read: Result<(u32, u32), PostgresTaskStoreError>,
    max_retries: u32,
    retry_count: u32,
    written: Value,
    read_back: Result<(u32, u32), PostgresTaskStoreError>,
)
    requires
        call_ensures(postgres::retry_values, (&policy,), read),
        call_ensures(postgres::retry_policy, (max_retries, retry_count), written),
        call_ensures(postgres::retry_values, (&written,), read_back),
    ensures
        match counts_in(policy) {
            Some((max, count)) => read matches Ok((low_max, low_count)) && low_max == max
                % 0x1_0000_0000 && low_count == count % 0x1_0000_0000,
            None => is_refused(read, "retry policy is invalid"@),
        },
        read_back == Ok::<_, PostgresTaskStoreError>((max_retries, retry_count)),
        json::members(written).dom() == set!["max_retries"@, "retry_count"@],
{
    super::postgres_laws::written_policy_is_read_back(max_retries, retry_count, written);
    postgres_promises::written_policy_holds_both_counts(max_retries, retry_count);
}

/// A span in milliseconds is one if they are not negative, and a lease that takes
/// such a span ends after it or at the deadline, whichever comes first.
pub proof fn spans_are_not_negative(
    milliseconds: i64,
    span: Result<Duration, PostgresTaskStoreError>,
    now: SystemTime,
    deadline: SystemTime,
    end: Result<SystemTime, PostgresTaskStoreError>,
)
    requires
        call_ensures(postgres::duration_from_ms, (milliseconds,), span),
        call_ensures(postgres::capped_expiry, (now, milliseconds, deadline), end),
    ensures
        span is Ok <==> milliseconds >= 0,
        span matches Ok(duration) ==> duration@ == milliseconds * 1_000_000,
        span is Err ==> is_refused(span, "execution timeout is invalid"@),
        end is Ok <==> milliseconds >= 0,
        end matches Ok(expiry) ==> calls::is_earlier_end(
            expiry@,
            now@,
            milliseconds * 1_000_000,
            deadline@,
        ),
        end is Err ==> is_refused(end, "execution timeout is invalid"@),
{
}

/// What was found is what is worked with, and a worker for which nothing was
/// found has no current lease. An attempt goes on until its lease or the deadline
/// comes to its end.
pub proof fn attempt_goes_on_until_its_end(
    found: Option<ActiveAttempt>,
    current: Result<ActiveAttempt, PostgresTaskStoreError>,
    active: ActiveAttempt,
    now: SystemTime,
    ensured: Result<(), PostgresTaskStoreError>,
)
    requires
        call_ensures(postgres::active_attempt, (found,), current),
        call_ensures(postgres::ensure_active, (&active, now), ensured),
    ensures
        match found {
            Some(attempt) => current == Ok::<_, PostgresTaskStoreError>(attempt),
            None => current matches Err(error) && error is InvalidLease,
        },
        ensured is Ok <==> now@ < active.lease_expiry@ && now@ < active.deadline@,
        ensured matches Err(error) ==> error is LeaseExpired,
{
}

/// An attempt is looked for by the task, the worker and the epoch that are asked
/// for.
pub proof fn attempt_is_looked_for_as_asked(
    task_id: TaskId,
    worker_id: WorkerId,
    ownership_epoch: u64,
    key: AttemptKey,
)
    requires
        call_ensures(postgres::attempt_key, (&task_id, &worker_id, ownership_epoch), key),
    ensures
        key.task_id@ == task_id.0@,
        key.worker_id@ == worker_id.0@,
        (key.ownership_epoch - ownership_epoch) % 0x1_0000_0000_0000_0000 == 0,
{
}

/// The holder of a live lease whose task allows a time that is not negative gets
/// it renewed, whatever the retries, and nobody else does. The lease then ends at
/// the earlier of the time that an attempt may take and the deadline.
pub proof fn renew_moves_the_end_of_a_live_lease(
    store: PostgresTaskStore,
    found: Option<ActiveAttempt>,
    task_id: TaskId,
    worker_id: WorkerId,
    ownership_epoch: u64,
    now: SystemTime,
    result: Result<RenewPlan, PostgresTaskStoreError>,
)
    requires
        call_ensures(
            PostgresTaskStore::renew,
            (&store, found, &task_id, &worker_id, ownership_epoch, now),
            result,
        ),
    ensures
        result is Ok <==> is_live(found, now@) && found->0.execution_timeout_ms >= 0,
        found is None ==> (result matches Err(error) && error is InvalidLease),
        found is Some && !is_live(found, now@) ==> (result matches Err(error)
            && error is LeaseExpired),
        is_live(found, now@) && result is Err ==> is_refused(
            result,
            "execution timeout is invalid"@,
        ),
        result matches Ok(plan) ==> {
            &&& plan.task_id@ == task_id.0@
            &&& plan.worker_id@ == worker_id.0@
            &&& (plan.ownership_epoch - ownership_epoch) % 0x1_0000_0000_0000_0000 == 0
            &&& calls::is_earlier_end(
                plan.lease_expiry@,
                now@,
                found->0.execution_timeout_ms * 1_000_000,
                found->0.deadline@,
            )
            &&& random::is_random_uuid(plan.event.id@)
            &&& plan.event.task_id@ == task_id.0@
            &&& plan.event.event_type@ == "lease_renewed"@
            &&& plan.event.timestamp@ == now@
            &&& json::members(plan.event.details) == map![
                "ownership_epoch"@ => Member::Unsigned(ownership_epoch),
            ]
        },
{
}

/// Whether `plan` ends the task `task_id` for the worker `worker_id`, and records
/// it.
pub open spec fn ends_task(
    plan: FinishPlan,
    task_id: TaskId,
    worker_id: WorkerId,
    ownership_epoch: u64,
    now: int,
) -> bool {
    &&& plan.task_id@ == task_id.0@
    &&& plan.worker_id@ == worker_id.0@
    &&& (plan.ownership_epoch - ownership_epoch) % 0x1_0000_0000_0000_0000 == 0
    &&& plan.finished_at@ == now
    &&& random::is_random_uuid(plan.event.id@)
    &&& plan.event.task_id@ == task_id.0@
    &&& plan.event.timestamp@ == now
}

/// The holder of a live lease gets its task completed, whatever the retries, and
/// nobody else does.
pub proof fn complete_ends_the_task_of_a_live_lease(
    store: PostgresTaskStore,
    found: Option<ActiveAttempt>,
    task_id: TaskId,
    worker_id: WorkerId,
    ownership_epoch: u64,
    now: SystemTime,
    result: Result<FinishPlan, PostgresTaskStoreError>,
)
    requires
        call_ensures(
            PostgresTaskStore::complete,
            (&store, found, &task_id, &worker_id, ownership_epoch, now),
            result,
        ),
    ensures
        result is Ok <==> is_live(found, now@),
        found is None ==> (result matches Err(error) && error is InvalidLease),
        found is Some && result is Err ==> (result matches Err(error) && error is LeaseExpired),
        result matches Ok(plan) ==> {
            &&& ends_task(plan, task_id, worker_id, ownership_epoch, now@)
            &&& plan.state == TaskState::Completed
            &&& plan.error is None
            &&& plan.event.event_type@ == "completed"@
            &&& json::members(plan.event.details) == map!["error"@ => Member::Null]
        },
{
}

/// The holder of a live lease that gives its task up gets it failed for its
/// reason, whatever retries are left, and nobody else does.
pub proof fn fail_ends_the_task_of_a_live_lease(
    store: PostgresTaskStore,
    found: Option<ActiveAttempt>,
    task_id: TaskId,
    worker_id: WorkerId,
    ownership_epoch: u64,
    now: SystemTime,
    message: String,
    result: Result<FinishPlan, PostgresTaskStoreError>,
)
    requires
        call_ensures(
            PostgresTaskStore::fail::<String>,
            (&store, found, &task_id, &worker_id, ownership_epoch, now, message),
            result,
        ),
    ensures
        result is Ok <==> is_live(found, now@),
        found is None ==> (result matches Err(error) && error is InvalidLease),
        found is Some && result is Err ==> (result matches Err(error) && error is LeaseExpired),
        result matches Ok(plan) ==> {
            &&& ends_task(plan, task_id, worker_id, ownership_epoch, now@)
            &&& plan.state == TaskState::Failed
            &&& plan.error matches Some(reason) && reason@ == message@
            &&& plan.event.event_type@ == "failed"@
            &&& json::members(plan.event.details) == map!["error"@ => Member::Text(message@)]
        },
{
}

/// Whether `plan` ends an attempt at the task `task_id` that has failed: with the
/// time and a retry left the task is ready again with one more retry, and
/// otherwise it is failed.
pub open spec fn ends_attempt(
    plan: TransitionPlan,
    task_id: TaskId,
    active: ActiveAttempt,
    now: int,
    message: Seq<char>,
) -> bool {
    let (wide_max, wide_count) = counts_in(active.retry_policy)->0;
    let max_retries = wide_max % 0x1_0000_0000;
    let retry_count = wide_count % 0x1_0000_0000;
    let again = now < active.deadline@ && retry_count < max_retries;
    let next_count: u64 = if again {
        (retry_count + 1) as u64
    } else {
        retry_count
    };
    &&& plan.task_id@ == task_id.0@
    &&& plan.state == if again {
        TaskState::Ready
    } else {
        TaskState::Failed
    }
    &&& plan.available_at@ == now
    &&& plan.finished_at@ == now
    &&& plan.error@ == message
    &&& counts_in(plan.retry_policy) == Some((max_retries, next_count))
    &&& random::is_random_uuid(plan.event.id@)
    &&& plan.event.task_id@ == task_id.0@
    &&& plan.event.event_type@ == if again {
        "ready"@
    } else {
        "failed"@
    }
    &&& plan.event.timestamp@ == now
    &&& json::members(plan.event.details) == map![
        "message"@ => Member::Text(message),
        "retry_count"@ => Member::Unsigned(next_count),
    ]
}

proof fn lemma_ends_attempt(
    plan: TransitionPlan,
    task_id: TaskId,
    active: ActiveAttempt,
    now: int,
    message: Seq<char>,
)
    requires
        postgres::retries_of(active.retry_policy) is Some,
        plan.follows(active, task_id@, now, message),
    ensures
        ends_attempt(plan, task_id, active, now, message),
{
    let (max_retries, retry_count) = postgres::retries_of(active.retry_policy)->0;
    postgres_promises::written_policy_holds_both_counts(max_retries, retry_count);
    if retry_count < max_retries {
        postgres_promises::written_policy_holds_both_counts(max_retries, (retry_count + 1) as u32);
    }
}

/// An attempt that fails is ended if and only if its retries can be read.
pub proof fn failed_attempt_is_ended(
    task_id: TaskId,
    active: ActiveAttempt,
    now: SystemTime,
    message: String,
    result: Result<TransitionPlan, PostgresTaskStoreError>,
)
    requires
        call_ensures(
            postgres::transition_to_retry_or_failure,
            (&task_id, &active, now, message),
            result,
        ),
    ensures
        result is Ok <==> counts_in(active.retry_policy) is Some,
        result is Err ==> is_refused(result, "retry policy is invalid"@),
        result matches Ok(plan) ==> ends_attempt(plan, task_id, active, now@, message@),
{
    if let Ok(plan) = result {
        lemma_ends_attempt(plan, task_id, active, now@, message@);
    }
}

/// The holder of a live lease that reports a failed attempt gets it ended for its
/// reason if the retries can be read, and nobody else does.
pub proof fn retry_ends_the_attempt_of_a_live_lease(
    store: PostgresTaskStore,
    found: Option<ActiveAttempt>,
    task_id: TaskId,
    now: SystemTime,
    message: String,
    result: Result<TransitionPlan, PostgresTaskStoreError>,
)
    requires
        call_ensures(
            PostgresTaskStore::retry::<String>,
            (&store, found, &task_id, now, message),
            result,
        ),
    ensures
        result is Ok <==> is_live(found, now@) && counts_in(found->0.retry_policy) is Some,
        found is None ==> (result matches Err(error) && error is InvalidLease),
        found is Some && !is_live(found, now@) ==> (result matches Err(error)
            && error is LeaseExpired),
        is_live(found, now@) && result is Err ==> is_refused(result, "retry policy is invalid"@),
        result matches Ok(plan) ==> ends_attempt(plan, task_id, found->0, now@, message@),
{
    if let Ok(plan) = result {
        lemma_ends_attempt(plan, task_id, found->0, now@, message@);
    }
}

/// A recovery ends the attempts one by one in their order, because their lease
/// has expired: all of them if the retries of all can be read, and those before
/// the first where they cannot be, to be taken back.
pub proof fn recover_expired_ends_the_attempts_in_order(
    store: PostgresTaskStore,
    rows: Vec<ExpiredRow>,
    now: SystemTime,
    plan: RecoveryPlan,
    i: int,
)
    requires
        call_ensures(PostgresTaskStore::recover_expired, (&store, &rows, now), plan),
        0 <= i < rows@.len(),
    ensures
        plan.refusal is None <==> plan.transitions@.len() == rows@.len(),
        plan.transitions@.len() <= rows@.len(),
        i < plan.transitions@.len() ==> counts_in(rows@[i].active.retry_policy) is Some
            && ends_attempt(
            plan.transitions@[i],
            rows@[i].task_id,
            rows@[i].active,
            now@,
            "lease expired"@,
        ),
        i == plan.transitions@.len() ==> counts_in(rows@[i].active.retry_policy) is None
            && plan.refusal is Some,
        plan.refusal matches Some(reason) ==> reason@ == "retry policy is invalid"@,
{
    let count = plan.transitions@.len() as int;
    if i < count {
        assert(postgres::retries_of(rows@[i].active.retry_policy) is Some);
        lemma_ends_attempt(
            plan.transitions@[i],
            rows@[i].task_id,
            rows@[i].active,
            now@,
            "lease expired"@,
        );
    }
}

/// A recovery ends with an error of the database if there was one, with the
/// refusal of the plan if it has one, and else with how many attempts it has
/// ended; all that were recovered are these and those that were given up.
pub proof fn recovery_is_counted(
    store: PostgresTaskStore,
    plan: RecoveryPlan,
    written: Result<(), tokio_postgres::Error>,
    result: Result<usize, PostgresTaskStoreError>,
    leased: usize,
    given_up: u64,
    total: usize,
)
    requires
        call_ensures(PostgresTaskStore::recovered, (&store, &plan, written), result),
        leased + given_up <= usize::MAX,
        call_ensures(PostgresTaskStore::recovered_count, (&store, leased, given_up), total),
    ensures
        result is Ok <==> written is Ok && plan.refusal is None,
        written matches Err(fault) ==> result == Err::<usize, _>(
            PostgresTaskStoreError::Database(fault),
        ),
        written is Ok ==> (plan.refusal matches Some(reason) ==> is_refused(result, reason@)),
        result matches Ok(count) ==> count == plan.transitions@.len() as usize,
        total == leased + given_up,
{
}

/// Attempts and events are written as they are told, under the identity that they
/// are told; an event that is told none gets one of its own.
pub proof fn rows_are_written_as_told(
    id: String,
    task_id: &str,
    attempt_number: i32,
    worker_id: WorkerId,
    ownership_epoch: u64,
    lease_expiry: SystemTime,
    now: SystemTime,
    attempt: AttemptInsert,
    event_type: &str,
    details: Value,
    event: EventInsert,
    own_event: EventInsert,
)
    requires
        call_ensures(
            postgres::attempt_with_id,
            (id, task_id, attempt_number, &worker_id, ownership_epoch, lease_expiry, now),
            attempt,
        ),
        call_ensures(postgres::event_with_id, (id, task_id, event_type, now, details), event),
        call_ensures(postgres::write_event, (task_id, event_type, now, details), own_event),
    ensures
        attempt.id@ == id@,
        attempt.task_id@ == task_id@,
        attempt.attempt_number == attempt_number,
        attempt.worker_id@ == worker_id.0@,
        (attempt.ownership_epoch - ownership_epoch) % 0x1_0000_0000_0000_0000 == 0,
        attempt.lease_expiry@ == lease_expiry@,
        attempt.started_at@ == now@,
        event.id@ == id@,
        event.task_id@ == task_id@,
        event.event_type@ == event_type@,
        event.timestamp@ == now@,
        event.details == details,
        random::is_random_uuid(own_event.id@),
        own_event.task_id@ == task_id@,
        own_event.event_type@ == event_type@,
        own_event.timestamp@ == now@,
        json::members(own_event.details) == json::members(details),
{
}

/// The states are called by their names.
pub proof fn states_are_called_by_their_names(state: TaskState, name: &'static str)
    requires
        call_ensures(TaskState::as_str, (&state,), name),
    ensures
        name@ == match state {
            TaskState::Ready => "ready"@,
            TaskState::Leased => "leased"@,
            TaskState::Completed => "completed"@,
            TaskState::Failed => "failed"@,
        },
{
}

/// The errors of a store are put into words.
pub proof fn database_errors_are_described(error: PostgresTaskStoreError, words: String)
    requires
        call_ensures(PostgresTaskStoreError::describe, (&error,), words),
    ensures
        match error {
            PostgresTaskStoreError::Database(fault) => exists|reason: String| #[trigger]
                vstd::string::to_string_from_display_ensures(&fault, reason) && words@
                    == "database error: "@ + reason@,
            PostgresTaskStoreError::InvalidTask(reason) => words@ == reason@,
            PostgresTaskStoreError::InvalidLease => words@ == "lease is not current"@,
            PostgresTaskStoreError::LeaseExpired => words@ == "lease has expired"@,
        },
{
}

} // verus!
