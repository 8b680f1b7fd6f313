//! What a store in PostgreSQL writes and answers, field by field: when a request
//! is granted, what it leaves behind, and what it leaves alone.

use serde_json::Value;
use vstd::prelude::*;

use super::postgres;
use super::postgres::{
    ActiveAttempt, EventInsert, ExpiredRow, FinishPlan, LeasePlan, PostgresTaskStoreError,
    ReadyRow, RecoveryPlan, RenewPlan, TaskInsert, TaskState, TransitionPlan,
};
use crate::domain::{LeaseView, StatusView, TaskView};
use crate::outside::json;
use crate::outside::json::Member;
use crate::outside::random;

verus! {

/// A task is accepted if and only if it is pending, has a workflow, and may take
/// from one millisecond to as many as can be counted; its retries, its priority,
/// its input and all else do not matter. A task that is refused is told the first
/// of these that is wrong.
pub proof fn submission_depends_on_status_workflow_and_time(task: TaskView)
    ensures
        postgres::submit_fault(task) is None <==> task.status is Pending && task.workflow_id is Some
            && 1_000_000 <= task.limits.max_execution_time < 0x8000_0000_0000_0000 * 1_000_000,
        !(task.status is Pending) ==> postgres::submit_fault(task) == Some(
            "submitted tasks must be pending"@,
        ),
        task.status is Pending && task.workflow_id is None ==> postgres::submit_fault(task) == Some(
            "PostgreSQL tasks require a workflow ID"@,
        ),
        task.status is Pending && task.workflow_id is Some && task.limits.max_execution_time
            >= 0x8000_0000_0000_0000 * 1_000_000 ==> postgres::submit_fault(task) == Some(
            "execution timeout is too large"@,
        ),
        task.status is Pending && task.workflow_id is Some && task.limits.max_execution_time
            < 1_000_000 ==> postgres::submit_fault(task) == Some(
            "max execution time must be greater than zero"@,
        ),
{
}

/// The row of a task waits from when the task was made, and holds what the task
/// says: the time it may take in whole milliseconds, its retries as they are, and
/// the count of its attempts by its bits.
pub proof fn row_says_what_the_task_says(task: TaskView, row: TaskInsert)
    requires
        row.is_of(task),
    ensures
        row.id@ == task.id,
        task.workflow_id == Some(row.workflow_id@),
        row.activity_type@ == task.activity_type,
        row.input@ == task.input,
        row.state == TaskState::Ready,
        row.pool_id@ == task.pool_id,
        row.priority == task.priority,
        row.available_at@ == task.created_at,
        row.created_at@ == task.created_at,
        row.deadline@ == task.limits.deadline,
        row.execution_timeout_ms * 1_000_000 <= task.limits.max_execution_time < (
        row.execution_timeout_ms + 1) * 1_000_000,
        postgres::retries_of(row.retry_policy) == Some(
            (task.retry.max_retries, task.retry.retry_count),
        ),
        json::members(row.retry_policy).dom() == set!["max_retries"@, "retry_count"@],
        (row.current_attempt - task.attempt.attempts_started) % 0x1_0000_0000 == 0,
{
    super::postgres_laws::written_policy_is_read_back(
        task.retry.max_retries,
        task.retry.retry_count,
        row.retry_policy,
    );
    assert(json::members(row.retry_policy).dom() =~= set!["max_retries"@, "retry_count"@]);
}

/// The retries are read from a policy if and only if it holds both counts as
/// whole numbers that are not negative; the low 32 bits of each are taken.
pub proof fn retries_are_read_from_both_counts(policy: Value)
    ensures
        match (
            json::members(policy).get("max_retries"@),
            json::members(policy).get("retry_count"@),
        ) {
            (Some(Member::Unsigned(max_retries)), Some(Member::Unsigned(retry_count))) => {
                &&& postgres::retries_of(policy) matches Some((max, count)) && {
                    &&& (max_retries - max) % 0x1_0000_0000 == 0
                    &&& (retry_count - count) % 0x1_0000_0000 == 0
                    &&& max_retries <= u32::MAX ==> max == max_retries
                    &&& retry_count <= u32::MAX ==> count == retry_count
                }
            },
            _ => postgres::retries_of(policy) is None,
        },
{
}

/// A policy that is written holds both counts and nothing else.
pub proof fn written_policy_holds_both_counts(max_retries: u32, retry_count: u32)
    ensures
        postgres::policy_members(max_retries, retry_count).dom() == set![
            "max_retries"@,
            "retry_count"@,
        ],
        postgres::policy_members(max_retries, retry_count)["max_retries"@] == Member::Unsigned(
            max_retries as u64,
        ),
        postgres::policy_members(max_retries, retry_count)["retry_count"@] == Member::Unsigned(
            retry_count as u64,
        ),
{
    reveal_strlit("max_retries");
    reveal_strlit("retry_count");
    assert("max_retries"@[0] != "retry_count"@[0]);
    assert(postgres::policy_members(max_retries, retry_count).dom() =~= set![
        "max_retries"@,
        "retry_count"@,
    ]);
}

/// A lease of a row is written if and only if the time it allows is not negative
/// and one more attempt can be counted; nothing else of the row matters.
pub proof fn lease_depends_on_time_and_attempts(row: ReadyRow)
    ensures
        postgres::lease_fault(row) is None <==> row.execution_timeout_ms >= 0 && row.current_attempt
            < i32::MAX,
        row.execution_timeout_ms < 0 ==> postgres::lease_fault(row) == Some(
            "execution timeout is invalid"@,
        ),
        row.execution_timeout_ms >= 0 && row.current_attempt == i32::MAX ==> postgres::lease_fault(
            row,
        ) == Some("attempt count overflowed"@),
{
}

/// A lease ends after the time that an attempt may take, or at the deadline if
/// that comes first.
pub proof fn lease_ends_at_the_earlier_of_both(now: int, execution_timeout_ms: int, deadline: int)
    ensures
        ({
            let end = postgres::expiry_of(now, execution_timeout_ms, deadline);
            &&& end <= deadline
            &&& end <= now + execution_timeout_ms * 1_000_000
            &&& end == deadline || end == now + execution_timeout_ms * 1_000_000
        }),
{
}

/// A lease that is granted is one of the worker that asks, under the epoch that
/// it gave, from now on until the earlier of the time that an attempt may take
/// and the deadline, as the next attempt. It is recorded under identities of its
/// own, and taken back if and only if the retries of the task cannot be read.
pub proof fn lease_is_granted_as_asked(
    plan: LeasePlan,
    row: ReadyRow,
    worker_id: Seq<char>,
    ownership_epoch: u64,
    now: int,
)
    requires
        plan.grants(row, worker_id, ownership_epoch, now),
    ensures
        plan.task_id@ == row.id@,
        random::is_random_uuid(plan.attempt.id@),
        plan.attempt.task_id@ == row.id@,
        plan.attempt.attempt_number == row.current_attempt + 1,
        plan.attempt.worker_id@ == worker_id,
        (plan.attempt.ownership_epoch - ownership_epoch) % 0x1_0000_0000_0000_0000 == 0,
        plan.attempt.started_at@ == now,
        plan.attempt.lease_expiry@ == plan.lease@.expires_at,
        plan.attempt.lease_expiry@ <= row.deadline@,
        plan.attempt.lease_expiry@ <= now + row.execution_timeout_ms * 1_000_000,
        plan.attempt.lease_expiry@ == row.deadline@ || plan.attempt.lease_expiry@ == now
            + row.execution_timeout_ms * 1_000_000,
        plan.lease@ == (LeaseView {
            owner_id: worker_id,
            ownership_epoch,
            leased_at: now,
            expires_at: plan.lease@.expires_at,
        }),
        random::is_random_uuid(plan.event.id@),
        plan.event.task_id@ == row.id@,
        plan.event.event_type@ == "leased"@,
        plan.event.timestamp@ == now,
        json::members(plan.event.details) == map![
            "worker_id"@ => Member::Text(worker_id),
            "ownership_epoch"@ => Member::Unsigned(ownership_epoch),
        ],
        (plan.attempts_started - plan.attempt.attempt_number) % 0x1_0000_0000 == 0,
        plan.refusal is None <==> postgres::retries_of(row.retry_policy) is Some,
        plan.refusal matches Some(reason) ==> reason@ == "retry policy is invalid"@,
{
}

/// A row is read as a task if and only if its retries can be read and the time it
/// allows is not negative; nothing else of it matters.
pub proof fn reading_depends_on_retries_and_time(row: ReadyRow)
    ensures
        postgres::row_fault(row) is None <==> postgres::retries_of(row.retry_policy) is Some
            && row.execution_timeout_ms >= 0,
        postgres::retries_of(row.retry_policy) is None ==> postgres::row_fault(row) == Some(
            "retry policy is invalid"@,
        ),
        postgres::retries_of(row.retry_policy) is Some && row.execution_timeout_ms < 0
            ==> postgres::row_fault(row) == Some("execution timeout is invalid"@),
{
}

/// The task that a row is read as says what the row says, with the status, the
/// attempts and the time that it is read with.
pub proof fn task_says_what_the_row_says(
    row: ReadyRow,
    status: StatusView,
    attempts_started: u32,
    read_at: int,
)
    requires
        postgres::row_fault(row) is None,
    ensures
        ({
            let task = postgres::task_of(row, status, attempts_started, read_at);
            &&& task.id == row.id@
            &&& task.tenant_id == row.tenant_id@
            &&& task.pool_id == row.pool_id@
            &&& task.activity_type == row.activity_type@
            &&& task.input == row.input@
            &&& task.workflow_id == Some(row.workflow_id@)
            &&& task.priority == row.priority
            &&& task.created_at == row.created_at@
            &&& task.limits.max_execution_time == row.execution_timeout_ms * 1_000_000
            &&& task.limits.deadline == row.deadline@
            &&& postgres::retries_of(row.retry_policy) == Some(
                (task.retry.max_retries, task.retry.retry_count),
            )
            &&& task.attempt.attempts_started == attempts_started
            &&& task.attempt.last_attempt_at == Some(read_at)
            &&& task.status == status
        }),
{
}

/// An attempt is under way if and only if it was found and neither its lease nor
/// the deadline has come to its end; nothing else of it matters. A worker whose
/// attempt is not is told that its lease is not current, or that it has expired.
pub proof fn only_the_current_holder_may_act(
    found: Option<ActiveAttempt>,
    now: int,
    error: PostgresTaskStoreError,
)
    ensures
        postgres::is_under_way(found, now) <==> (found matches Some(active) && now
            < active.lease_expiry@ && now < active.deadline@),
        found matches Some(active) ==> (active.is_over(now) <==> now >= active.lease_expiry@ || now
            >= active.deadline@),
        found is None ==> (postgres::refuses(found, now, error) <==> error is InvalidLease),
        found matches Some(active) ==> (postgres::refuses(found, now, error) <==> (now
            >= active.lease_expiry@ || now >= active.deadline@) && error is LeaseExpired),
{
}

/// A renewal moves the end of the lease of the worker that asks, under the epoch
/// that it gave, to the earlier of the time that an attempt may take from now on
/// and the deadline, whatever the retries of the task, and is recorded.
pub proof fn renewal_moves_the_end_of_the_lease(
    plan: RenewPlan,
    active: ActiveAttempt,
    task_id: Seq<char>,
    worker_id: Seq<char>,
    ownership_epoch: u64,
    now: int,
)
    requires
        plan.renews(active, task_id, worker_id, ownership_epoch, now),
    ensures
        plan.task_id@ == task_id,
        plan.worker_id@ == worker_id,
        (plan.ownership_epoch - ownership_epoch) % 0x1_0000_0000_0000_0000 == 0,
        plan.lease_expiry@ <= active.deadline@,
        plan.lease_expiry@ <= now + active.execution_timeout_ms * 1_000_000,
        plan.lease_expiry@ == active.deadline@ || plan.lease_expiry@ == now
            + active.execution_timeout_ms * 1_000_000,
        random::is_random_uuid(plan.event.id@),
        plan.event.task_id@ == task_id,
        plan.event.event_type@ == "lease_renewed"@,
        plan.event.timestamp@ == now,
        json::members(plan.event.details) == map![
            "ownership_epoch"@ => Member::Unsigned(ownership_epoch),
        ],
{
}

/// A task that a worker is done with gets the state that it ends in, at that
/// time, with the error if there is one, for the worker under the epoch that it
/// gave, and this is recorded.
pub proof fn end_is_written_as_told(
    plan: FinishPlan,
    task_id: Seq<char>,
    worker_id: Seq<char>,
    ownership_epoch: u64,
    now: int,
    state: TaskState,
    error: Option<Seq<char>>,
)
    requires
        plan.finishes(task_id, worker_id, ownership_epoch, now, state, error),
    ensures
        plan.task_id@ == task_id,
        plan.worker_id@ == worker_id,
        (plan.ownership_epoch - ownership_epoch) % 0x1_0000_0000_0000_0000 == 0,
        plan.state == state,
        plan.finished_at@ == now,
        error is None <==> plan.error is None,
        plan.error matches Some(message) ==> error == Some(message@),
        random::is_random_uuid(plan.event.id@),
        plan.event.task_id@ == task_id,
        state == TaskState::Completed ==> plan.event.event_type@ == "completed"@,
        state == TaskState::Failed ==> plan.event.event_type@ == "failed"@,
        plan.event.timestamp@ == now,
        error is None ==> json::members(plan.event.details) == map!["error"@ => Member::Null],
        error matches Some(message) ==> json::members(plan.event.details) == map![
            "error"@ => Member::Text(message),
        ],
{
}

/// An attempt that has failed before the deadline, with a retry left, uses it up
/// and leaves the task ready from now on; any other ends the task and uses up
/// none. The reason is kept, and all of it is recorded.
pub proof fn failed_attempt_uses_up_a_retry(
    plan: TransitionPlan,
    active: ActiveAttempt,
    task_id: Seq<char>,
    now: int,
    message: Seq<char>,
    max_retries: u32,
    retry_count: u32,
)
    requires
        postgres::retries_of(active.retry_policy) == Some((max_retries, retry_count)),
        plan.follows(active, task_id, now, message),
    ensures
        plan.task_id@ == task_id,
        plan.available_at@ == now,
        plan.finished_at@ == now,
        plan.error@ == message,
        random::is_random_uuid(plan.event.id@),
        plan.event.task_id@ == task_id,
        plan.event.timestamp@ == now,
        json::members(plan.retry_policy).dom() == set!["max_retries"@, "retry_count"@],
        now < active.deadline@ && retry_count < max_retries ==> {
            &&& plan.state == TaskState::Ready
            &&& postgres::retries_of(plan.retry_policy) == Some(
                (max_retries, (retry_count + 1) as u32),
            )
            &&& plan.event.event_type@ == "ready"@
            &&& json::members(plan.event.details) == map![
                "message"@ => Member::Text(message),
                "retry_count"@ => Member::Unsigned((retry_count + 1) as u64),
            ]
        },
        now >= active.deadline@ || retry_count >= max_retries ==> {
            &&& plan.state == TaskState::Failed
            &&& postgres::retries_of(plan.retry_policy) == Some((max_retries, retry_count))
            &&& plan.event.event_type@ == "failed"@
            &&& json::members(plan.event.details) == map![
                "message"@ => Member::Text(message),
                "retry_count"@ => Member::Unsigned(retry_count as u64),
            ]
        },
{
    super::postgres_laws::retry_counts_never_fall(plan, active, task_id, now, message);
    let next_count = if plan.state == TaskState::Failed {
        retry_count
    } else {
        (retry_count + 1) as u32
    };
    written_policy_holds_both_counts(max_retries, next_count);
}

/// A recovery ends the attempts that have run out of time one by one, in their
/// order and because their lease has expired: all of them if the retries of all
/// can be read, and those before the first where they cannot be, to be taken
/// back.
pub proof fn recovery_ends_the_attempts_in_order(
    plan: RecoveryPlan,
    rows: Seq<ExpiredRow>,
    now: int,
    i: int,
)
    requires
        plan.recovers(rows, now),
        0 <= i < rows.len(),
    ensures
        plan.refusal is None <==> forall|j: int|
            0 <= j < rows.len() ==> postgres::retries_of(
                (#[trigger] rows[j]).active.retry_policy,
            ) is Some,
        plan.refusal matches Some(reason) ==> reason@ == "retry policy is invalid"@,
        plan.refusal is None ==> plan.transitions@.len() == rows.len(),
        plan.transitions@.len() <= i ==> plan.refusal is Some,
        i < plan.transitions@.len() ==> {
            &&& plan.transitions@[i].task_id@ == rows[i].task_id.0@
            &&& plan.transitions@[i].error@ == "lease expired"@
            &&& plan.transitions@[i].follows(
                rows[i].active,
                rows[i].task_id.0@,
                now,
                "lease expired"@,
            )
        },
        plan.refusal is Some ==> exists|j: int|
            {
                &&& 0 <= j < rows.len()
                &&& postgres::retries_of((#[trigger] rows[j]).active.retry_policy) is None
                &&& plan.transitions@.len() == j
                &&& i < j ==> postgres::retries_of(rows[i].active.retry_policy) is Some
            },
{
    let count = plan.transitions@.len() as int;
    assert(i < count ==> postgres::retries_of(rows[i].active.retry_policy) is Some);
    if plan.refusal is Some {
        assert(postgres::retries_of(rows[count].active.retry_policy) is None);
    }
}

/// An event says what has happened to which task and when, under an identity of
/// its own.
pub proof fn event_says_what_has_happened(
    event: EventInsert,
    task_id: Seq<char>,
    event_type: Seq<char>,
    timestamp: int,
    details: Map<Seq<char>, Member>,
)
    requires
        event.records(task_id, event_type, timestamp, details),
    ensures
        random::is_random_uuid(event.id@),
        event.task_id@ == task_id,
        event.event_type@ == event_type,
        event.timestamp@ == timestamp,
        json::members(event.details) == details,
{
}

/// The states have the names that the database knows them by.
pub proof fn states_have_their_names()
    ensures
        TaskState::Ready.name() == "ready"@,
        TaskState::Leased.name() == "leased"@,
        TaskState::Completed.name() == "completed"@,
        TaskState::Failed.name() == "failed"@,
{
}

/// The error that a task is invalid gives the reason.
pub proof fn invalid_task_gives_the_reason(error: PostgresTaskStoreError, reason: Seq<char>)
    ensures
        error.is_invalid_task(reason) <==> (error matches PostgresTaskStoreError::InvalidTask(
            message,
        ) && message@ == reason),
{
}

} // verus!
