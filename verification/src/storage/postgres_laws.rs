//! What holds of a store in PostgreSQL as a whole, and how it agrees with one
//! in memory.

use serde_json::Value;
use vstd::prelude::*;

use crate::domain::{LeaseView, LimitsView, StatusView, TaskView};
use crate::numbers;
use crate::outside::json;
use crate::time::NANOS_PER_MILLI;

use super::postgres;
use super::postgres::{
    ActiveAttempt, LeasePlan, ReadyRow, RenewPlan, TaskInsert, TaskState, TransitionPlan,
};
use super::tables;

verus! {

/// A retry policy that was written says the same when it is read.
pub proof fn written_policy_is_read_back(max_retries: u32, retry_count: u32, policy: Value)
    requires
        json::members(policy) == postgres::policy_members(max_retries, retry_count),
    ensures
        postgres::retries_of(policy) == Some((max_retries, retry_count)),
{
    reveal_strlit("max_retries");
    reveal_strlit("retry_count");
    assert("max_retries"@[0] != "retry_count"@[0]);
    assert(json::members(policy).contains_key("max_retries"@));
    assert(json::members(policy).contains_key("retry_count"@));
}

/// When an attempt has failed, the retries that are allowed stay the same, and
/// those that were made grow by one if the task waits again and stay the same
/// if it is given up.
pub proof fn retry_counts_never_fall(
    plan: TransitionPlan,
    active: ActiveAttempt,
    task_id: Seq<char>,
    now: int,
    message: Seq<char>,
)
    requires
        postgres::retries_of(active.retry_policy) is Some,
        plan.follows(active, task_id, now, message),
    ensures
        ({
            let (max_retries, retry_count) = postgres::retries_of(active.retry_policy)->0;
            &&& plan.state == TaskState::Ready ==> retry_count < max_retries
                && postgres::retries_of(plan.retry_policy) == Some(
                (max_retries, (retry_count + 1) as u32),
            )
            &&& plan.state == TaskState::Failed ==> postgres::retries_of(plan.retry_policy) == Some(
                (max_retries, retry_count),
            )
            &&& plan.state == TaskState::Ready || plan.state == TaskState::Failed
        }),
{
    let (max_retries, retry_count) = postgres::retries_of(active.retry_policy)->0;
    let next_count = if plan.state == TaskState::Failed {
        retry_count
    } else {
        (retry_count + 1) as u32
    };
    written_policy_is_read_back(max_retries, next_count, plan.retry_policy);
}

/// Whether `plans` are what became of the attempts `attempts` at one task, one
/// after the other: each attempt finds the policy that the one before it has
/// left, and all of them failed.
pub open spec fn fails_over_and_over(
    attempts: Seq<ActiveAttempt>,
    plans: Seq<TransitionPlan>,
    times: Seq<int>,
    messages: Seq<Seq<char>>,
    task_id: Seq<char>,
) -> bool {
    &&& attempts.len() == plans.len() == times.len() == messages.len()
    &&& forall|i: int|
        0 <= i < attempts.len() ==> (#[trigger] plans[i]).follows(
            attempts[i],
            task_id,
            times[i],
            messages[i],
        )
    &&& forall|i: int|
        0 < i < attempts.len() ==> (#[trigger] attempts[i]).retry_policy == plans[i
            - 1].retry_policy
}

/// A task does not wait again more often than it has retries left: attempts
/// that fail one after the other and all leave the task waiting are at most
/// that many, and each has counted.
pub proof fn retries_run_out(
    attempts: Seq<ActiveAttempt>,
    plans: Seq<TransitionPlan>,
    times: Seq<int>,
    messages: Seq<Seq<char>>,
    task_id: Seq<char>,
    max_retries: u32,
    retry_count: u32,
)
    requires
        fails_over_and_over(attempts, plans, times, messages, task_id),
        attempts.len() > 0,
        postgres::retries_of(attempts[0].retry_policy) == Some((max_retries, retry_count)),
        forall|i: int| 0 <= i < plans.len() ==> (#[trigger] plans[i]).state == TaskState::Ready,
    ensures
        plans.len() <= max_retries - retry_count,
        postgres::retries_of(plans.last().retry_policy) == Some(
            (max_retries, (retry_count + plans.len()) as u32),
        ),
    decreases attempts.len(),
{
    let last = attempts.len() - 1;
    assert(plans[last].follows(attempts[last], task_id, times[last], messages[last]));
    if last > 0 {
        let earlier = attempts.drop_last();
        assert(fails_over_and_over(
            earlier,
            plans.drop_last(),
            times.drop_last(),
            messages.drop_last(),
            task_id,
        ));
        retries_run_out(
            earlier,
            plans.drop_last(),
            times.drop_last(),
            messages.drop_last(),
            task_id,
            max_retries,
            retry_count,
        );
        assert(attempts[last].retry_policy == plans.drop_last().last().retry_policy);
    }
    retry_counts_never_fall(plans[last], attempts[last], task_id, times[last], messages[last]);
}

/// A lease never ends after the deadline, and one that is granted or renewed
/// before the deadline for some time does not end at once.
pub proof fn lease_ends_by_the_deadline(now: int, execution_timeout_ms: int, deadline: int)
    ensures
        postgres::expiry_of(now, execution_timeout_ms, deadline) <= deadline,
        now < deadline && execution_timeout_ms > 0 ==> now < postgres::expiry_of(
            now,
            execution_timeout_ms,
            deadline,
        ),
{
}

/// Once the deadline has come, an attempt that fails is the last one.
pub proof fn deadline_ends_the_task(
    plan: TransitionPlan,
    active: ActiveAttempt,
    task_id: Seq<char>,
    now: int,
    message: Seq<char>,
)
    requires
        plan.follows(active, task_id, now, message),
        now >= active.deadline@,
    ensures
        plan.state == TaskState::Failed,
{
}

/// Two ownership epochs that differ still differ as they are stored, so that a
/// worker of one epoch is not taken for one of another.
pub proof fn stored_epochs_differ(left: u64, right: u64)
    requires
        left != right,
    ensures
        numbers::signed_64(left) != numbers::signed_64(right),
{
}

/// Whether `row` is what is found of a task that was added with `added` and
/// belongs to the tenant `tenant_id` by its workflow.
pub open spec fn is_found(row: ReadyRow, added: TaskInsert, tenant_id: Seq<char>) -> bool {
    &&& row.id@ == added.id@
    &&& row.workflow_id@ == added.workflow_id@
    &&& row.tenant_id@ == tenant_id
    &&& row.activity_type@ == added.activity_type@
    &&& row.input@ == added.input@
    &&& row.pool_id@ == added.pool_id@
    &&& row.priority == added.priority
    &&& row.created_at@ == tables::stored(added.created_at@)
    &&& row.deadline@ == tables::stored(added.deadline@)
    &&& row.execution_timeout_ms == added.execution_timeout_ms
    &&& json::members(row.retry_policy) == json::members(added.retry_policy)
    &&& row.current_attempt == added.current_attempt
}

/// The task as the database keeps it: a fraction of a millisecond in the time
/// that it allows is dropped, and so is a fraction of a microsecond in when it
/// was made and when it has to be done.
pub open spec fn kept(task: TaskView) -> TaskView {
    let millis = task.limits.max_execution_time / NANOS_PER_MILLI as nat;
    TaskView {
        created_at: tables::stored(task.created_at),
        limits: LimitsView {
            max_execution_time: millis * NANOS_PER_MILLI as nat,
            deadline: tables::stored(task.limits.deadline),
        },
        ..task
    }
}

/// A task that was submitted and then leased is handed to the worker as a store
/// in memory would hand out the task that the database has kept. One that claims
/// to have been started as often as can be counted is left aside: the count
/// starts anew.
pub proof fn submitted_task_is_leased(
    task: TaskView,
    added: TaskInsert,
    row: ReadyRow,
    plan: LeasePlan,
    worker_id: Seq<char>,
    ownership_epoch: u64,
    now: int,
)
    requires
        postgres::submit_fault(task) is None,
        added.is_of(task),
        is_found(row, added, task.tenant_id),
        plan.grants(row, worker_id, ownership_epoch, now),
        task.attempt.attempts_started != u32::MAX,
    ensures
        postgres::lease_fault(row) is None,
        plan.refusal is None,
        postgres::row_fault(row) is None,
        postgres::task_of(row, StatusView::Leased(plan.lease@), plan.attempts_started, now) == kept(
            task,
        ).leased(worker_id, ownership_epoch, now),
{
    written_policy_is_read_back(task.retry.max_retries, task.retry.retry_count, row.retry_policy);
}

/// Whether what the database holds of the attempt `active` says the same as
/// the leased task `task`.
pub open spec fn stands_for(active: ActiveAttempt, task: TaskView) -> bool {
    &&& active.deadline@ == task.limits.deadline
    &&& active.execution_timeout_ms * NANOS_PER_MILLI == task.limits.max_execution_time
    &&& postgres::retries_of(active.retry_policy) == Some(
        (task.retry.max_retries, task.retry.retry_count),
    )
    &&& task.status matches StatusView::Leased(lease) && lease.expires_at == active.lease_expiry@
}

/// A worker that holds the lease on a task may act on it for exactly as long as
/// with a store in memory.
pub proof fn holder_is_refused_alike(
    active: ActiveAttempt,
    task: TaskView,
    lease: LeaseView,
    now: int,
)
    requires
        stands_for(active, task),
        task.status == StatusView::Leased(lease),
    ensures
        postgres::is_under_way(Some(active), now) <==> task.lease_fault(
            lease.owner_id,
            lease.ownership_epoch,
            now,
        ) is None,
        active.is_over(now) == task.is_expired(now),
{
}

/// A lease is renewed for as long as with a store in memory.
pub proof fn lease_is_renewed_alike(
    plan: RenewPlan,
    active: ActiveAttempt,
    task: TaskView,
    worker_id: Seq<char>,
    ownership_epoch: u64,
    now: int,
)
    requires
        stands_for(active, task),
        plan.renews(active, task.id, worker_id, ownership_epoch, now),
    ensures
        task.renewed(now).status == StatusView::Leased(
            (LeaseView { expires_at: plan.lease_expiry@, ..task.status->Leased_0 }),
        ),
{
}

/// What becomes of a task whose attempt has failed is the same as with a store
/// in memory: whether it waits again, and how often it was retried. The same
/// holds of a lease that has ended.
pub proof fn failed_attempt_is_retried_alike(
    plan: TransitionPlan,
    active: ActiveAttempt,
    task: TaskView,
    now: int,
    message: Seq<char>,
)
    requires
        stands_for(active, task),
        plan.follows(active, task.id, now, message),
    ensures
        plan.state == TaskState::Ready <==> task.retried(now, message).status is Pending,
        plan.state == TaskState::Failed <==> task.retried(now, message).status == (
        StatusView::Failed { failed_at: plan.finished_at@, message: plan.error@ }),
        postgres::retries_of(plan.retry_policy) == Some(
            (
                task.retried(now, message).retry.max_retries,
                task.retried(now, message).retry.retry_count,
            ),
        ),
        active.is_over(now) && message == "lease expired"@ ==> task.recovered(now) == task.retried(
            now,
            message,
        ),
{
    retry_counts_never_fall(plan, active, task.id, now, message);
}

} // verus!
