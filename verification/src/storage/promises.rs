//! What a worker and a client get from a store in memory, field by field: when a
//! request is granted, what it leaves behind, and what it leaves alone.

use vstd::prelude::*;

use super::model;
use super::StoreErrorView;
use crate::domain::{AttemptView, LeaseView, StatusView, TaskView};

verus! {

/// A task is accepted if and only if it is pending, is allowed some execution
/// time and has an identity of its own; nothing else of it matters. It is then
/// found as it was submitted, beside all the others. A task that is refused is
/// told why and changes nothing.
pub proof fn submission_depends_on_status_time_and_identity(
    tasks: Map<Seq<char>, TaskView>,
    task: TaskView,
    reply: Result<(), StoreErrorView>,
    after: Map<Seq<char>, TaskView>,
)
    requires
        reply == model::submit_reply(tasks, task),
        after == model::submitted(tasks, task),
    ensures
        reply is Ok <==> task.status is Pending && task.limits.max_execution_time > 0
            && !tasks.contains_key(task.id),
        reply is Ok ==> after == tasks.insert(task.id, task),
        reply is Err ==> after == tasks,
        !(task.status is Pending) ==> reply == Err::<(), _>(
            StoreErrorView::InvalidTask("submitted tasks must be pending"@),
        ),
        task.status is Pending && task.limits.max_execution_time == 0 ==> reply == Err::<(), _>(
            StoreErrorView::InvalidTask("max execution time must be greater than zero"@),
        ),
        task.status is Pending && task.limits.max_execution_time > 0 && tasks.contains_key(task.id)
            ==> reply == Err::<(), _>(StoreErrorView::DuplicateTask(task.id)),
{
}

/// A task that can be submitted at all is one that is pending and is allowed
/// some execution time; nothing else of it matters.
pub proof fn check_depends_on_status_and_time(task: TaskView)
    ensures
        model::submit_fault(task) is None <==> task.status is Pending
            && task.limits.max_execution_time > 0,
        !(task.status is Pending) ==> model::submit_fault(task) == Some(
            StoreErrorView::InvalidTask("submitted tasks must be pending"@),
        ),
        task.status is Pending && task.limits.max_execution_time == 0 ==> model::submit_fault(task)
            == Some(StoreErrorView::InvalidTask("max execution time must be greater than zero"@)),
{
}

/// A worker that asks gets a task whenever one of its pool is pending before its
/// expiry and its deadline, whatever its priority, its retries and its attempts.
pub proof fn pending_task_is_handed_out(
    before: Map<Seq<char>, TaskView>,
    pool_id: Seq<char>,
    worker_id: Seq<char>,
    ownership_epoch: u64,
    now: int,
    after: Map<Seq<char>, TaskView>,
    given: Option<TaskView>,
    id: Seq<char>,
)
    requires
        model::leases_next(before, pool_id, worker_id, ownership_epoch, now, after, given),
        before.contains_key(id),
        before[id].pool_id == pool_id,
        before[id].status matches StatusView::Pending { expires_at } && now < expires_at,
        now < before[id].limits.deadline,
    ensures
        given is Some,
{
    assert(model::recovered(before, now).contains_key(id));
}

/// A worker that asks gets a task whenever one of its pool was leased, its lease
/// has ended, and it has the time and a retry left.
pub proof fn abandoned_task_is_handed_out(
    before: Map<Seq<char>, TaskView>,
    pool_id: Seq<char>,
    worker_id: Seq<char>,
    ownership_epoch: u64,
    now: int,
    after: Map<Seq<char>, TaskView>,
    given: Option<TaskView>,
    id: Seq<char>,
)
    requires
        model::leases_next(before, pool_id, worker_id, ownership_epoch, now, after, given),
        before.contains_key(id),
        before[id].pool_id == pool_id,
        before[id].status matches StatusView::Leased(lease) && now >= lease.expires_at,
        before[id].retry.retry_count < before[id].retry.max_retries,
        now < before[id].limits.deadline,
    ensures
        given is Some,
{
    assert(model::recovered(before, now).contains_key(id));
}

/// A task alone in a store, pending before its expiry and its deadline, goes to
/// the worker of its pool that asks.
pub proof fn submitted_task_is_handed_out(
    task: TaskView,
    worker_id: Seq<char>,
    ownership_epoch: u64,
    now: int,
    after: Map<Seq<char>, TaskView>,
    given: Option<TaskView>,
)
    requires
        task.limits.max_execution_time > 0,
        task.status matches StatusView::Pending { expires_at } && now < expires_at,
        now < task.limits.deadline,
        model::leases_next(
            model::submitted(Map::<Seq<char>, TaskView>::empty(), task),
            task.pool_id,
            worker_id,
            ownership_epoch,
            now,
            after,
            given,
        ),
    ensures
        given matches Some(leased) && leased.id == task.id && leased.retry == task.retry,
        after.contains_key(task.id),
        given == Some(after[task.id]),
{
    let before = model::submitted(Map::<Seq<char>, TaskView>::empty(), task);
    assert(before == Map::<Seq<char>, TaskView>::empty().insert(task.id, task));
    pending_task_is_handed_out(
        before,
        task.pool_id,
        worker_id,
        ownership_epoch,
        now,
        after,
        given,
        task.id,
    );
}

/// No task that a worker could have had instead was more urgent than the one it
/// got: none has a higher priority, none of the same priority is older, and none
/// of the same age has an identity that comes first.
pub proof fn given_task_is_the_most_urgent(
    before: Map<Seq<char>, TaskView>,
    pool_id: Seq<char>,
    worker_id: Seq<char>,
    ownership_epoch: u64,
    now: int,
    after: Map<Seq<char>, TaskView>,
    given: TaskView,
    other: Seq<char>,
)
    requires
        model::leases_next(before, pool_id, worker_id, ownership_epoch, now, after, Some(given)),
        before.contains_key(other),
        other != given.id,
        before[other].pool_id == pool_id,
        now < before[other].limits.deadline,
        match before[other].status {
            StatusView::Pending { expires_at } => now < expires_at,
            StatusView::Leased(lease) => now >= lease.expires_at && before[other].retry.retry_count
                < before[other].retry.max_retries,
            _ => false,
        },
        before[other].id == other,
    ensures
        given.priority >= before[other].priority,
        given.priority == before[other].priority ==> given.created_at <= before[other].created_at,
        given.priority == before[other].priority && given.created_at == before[other].created_at
            ==> crate::text::precedes(given.id, other),
{
    assert(model::recovered(before, now).contains_key(other));
}

/// The task that a worker gets is one of its pool that was pending before its
/// expiry, or whose lease had ended with a retry left, and before its deadline.
/// It is leased to the worker under the epoch it gave, from now on, for as long
/// as one attempt may take but not beyond the deadline. One more attempt is
/// counted, and one more retry if a lease had ended. All else is as it was.
pub proof fn given_task_is_leased_to_the_worker(
    before: Map<Seq<char>, TaskView>,
    pool_id: Seq<char>,
    worker_id: Seq<char>,
    ownership_epoch: u64,
    now: int,
    after: Map<Seq<char>, TaskView>,
    given: TaskView,
)
    requires
        model::leases_next(before, pool_id, worker_id, ownership_epoch, now, after, Some(given)),
    ensures
        before.contains_key(given.id),
        after.contains_key(given.id),
        after[given.id] == given,
        ({
            let task = before[given.id];
            let end = given.status->Leased_0.expires_at;
            &&& task.pool_id == pool_id
            &&& now < task.limits.deadline
            &&& match task.status {
                StatusView::Pending { expires_at } => now < expires_at && given.retry == task.retry,
                StatusView::Leased(lease) => {
                    &&& now >= lease.expires_at
                    &&& task.retry.retry_count < task.retry.max_retries
                    &&& given.retry.retry_count == task.retry.retry_count + 1
                    &&& given.retry.max_retries == task.retry.max_retries
                },
                _ => false,
            }
            &&& given == TaskView {
                retry: given.retry,
                attempt: AttemptView {
                    attempts_started: given.attempt.attempts_started,
                    last_attempt_at: Some(now),
                },
                status: StatusView::Leased(
                    LeaseView {
                        owner_id: worker_id,
                        ownership_epoch,
                        leased_at: now,
                        expires_at: end,
                    },
                ),
                ..task
            }
            &&& task.attempt.attempts_started < u32::MAX ==> given.attempt.attempts_started
                == task.attempt.attempts_started + 1
            &&& task.attempt.attempts_started == u32::MAX ==> given.attempt.attempts_started
                == u32::MAX
            &&& end <= now + task.limits.max_execution_time
            &&& end <= task.limits.deadline
            &&& end == now + task.limits.max_execution_time || end == task.limits.deadline
        }),
{
}

/// When a worker asks for a task, no task comes or goes, and all but the one it
/// gets are as after a look at the time.
pub proof fn other_tasks_are_only_recovered(
    before: Map<Seq<char>, TaskView>,
    pool_id: Seq<char>,
    worker_id: Seq<char>,
    ownership_epoch: u64,
    now: int,
    after: Map<Seq<char>, TaskView>,
    given: Option<TaskView>,
    id: Seq<char>,
)
    requires
        model::leases_next(before, pool_id, worker_id, ownership_epoch, now, after, given),
    ensures
        after.contains_key(id) <==> before.contains_key(id),
        before.contains_key(id) && !(given matches Some(task) && task.id == id) ==> after[id]
            == model::recovered(before, now)[id],
{
}

/// A look at the time changes what has run out of it and nothing else. A task
/// that nobody took by its expiry or deadline is given up. A leased task whose
/// lease or deadline has passed goes back with one more retry if it has the time
/// and a retry left, and is given up otherwise. All other tasks stay exactly as
/// they are, and no task comes or goes.
pub proof fn recovery_changes_what_has_run_out_of_time(
    tasks: Map<Seq<char>, TaskView>,
    now: int,
    id: Seq<char>,
)
    ensures
        model::recovered(tasks, now).contains_key(id) <==> tasks.contains_key(id),
        tasks.contains_key(id) ==> ({
            let task = tasks[id];
            let later = model::recovered(tasks, now)[id];
            let given_up = |message: Seq<char>|
                TaskView { status: StatusView::Failed { failed_at: now, message }, ..task };
            match task.status {
                StatusView::Completed { .. } | StatusView::Failed { .. } => later == task,
                StatusView::Pending { expires_at } => if now < expires_at && now
                    < task.limits.deadline {
                    later == task
                } else {
                    later == given_up("task expired before it was leased"@)
                },
                StatusView::Leased(lease) => if now < lease.expires_at && now
                    < task.limits.deadline {
                    later == task
                } else if now >= task.limits.deadline || task.retry.retry_count
                    >= task.retry.max_retries {
                    later == given_up("lease expired"@)
                } else {
                    &&& later.retry.retry_count == task.retry.retry_count + 1
                    &&& later.retry.max_retries == task.retry.max_retries
                    &&& later == TaskView {
                        retry: later.retry,
                        status: StatusView::Pending { expires_at: task.limits.deadline },
                        ..task
                    }
                },
            }
        }),
{
}

/// A recovery gives back exactly the tasks that it has changed, each once and as
/// it then stands.
pub proof fn recovery_gives_back_what_it_has_changed(
    tasks: Map<Seq<char>, TaskView>,
    now: int,
    changed: Seq<TaskView>,
    id: Seq<char>,
)
    requires
        model::is_valid(tasks),
        model::lists_changes(tasks, now, changed),
        tasks.contains_key(id),
    ensures
        model::recovered(tasks, now)[id] != tasks[id] <==> changed.contains(
            model::recovered(tasks, now)[id],
        ),
        forall|k: int|
            0 <= k < changed.len() ==> {
                &&& tasks.contains_key((#[trigger] changed[k]).id)
                &&& changed[k] == model::recovered(tasks, now)[changed[k].id]
                &&& changed[k] != tasks[changed[k].id]
            },
        forall|k: int, l: int|
            0 <= k < l < changed.len() ==> (#[trigger] changed[k]).id != (#[trigger] changed[l]).id,
{
    assert forall|k: int| 0 <= k < changed.len() implies {
        &&& tasks.contains_key((#[trigger] changed[k]).id)
        &&& changed[k] == model::recovered(tasks, now)[changed[k].id]
        &&& changed[k] != tasks[changed[k].id]
    } by {
        recovery_changes_what_has_run_out_of_time(tasks, now, changed[k].id);
    }
    recovery_changes_what_has_run_out_of_time(tasks, now, id);
    let later = model::recovered(tasks, now)[id];
    if later != tasks[id] {
        assert(tasks[id].is_expired(now));
        let k = choose|k: int| 0 <= k < changed.len() && (#[trigger] changed[k]).id == id;
        assert(changed[k] == later);
    }
    if changed.contains(later) {
        let k = choose|k: int| 0 <= k < changed.len() && changed[k] == later;
        assert(changed[k].id == id);
    }
}

/// A worker may act on a task if and only if the task is there and leased to it
/// under the epoch it gives, and neither the lease nor the deadline has come to
/// its end; nothing else of the task matters. Any other worker is told why not,
/// and changes nothing.
pub proof fn only_the_current_holder_may_act(
    tasks: Map<Seq<char>, TaskView>,
    id: Seq<char>,
    worker_id: Seq<char>,
    ownership_epoch: u64,
    now: int,
    change: spec_fn(TaskView) -> TaskView,
    reply: Result<TaskView, StoreErrorView>,
    after: Map<Seq<char>, TaskView>,
)
    requires
        reply == model::holder_reply(tasks, id, worker_id, ownership_epoch, now, change),
        after == model::settled(tasks, id, reply),
    ensures
        reply is Ok <==> tasks.contains_key(id) && (tasks[id].status matches StatusView::Leased(
            lease,
        ) && lease.owner_id == worker_id && lease.ownership_epoch == ownership_epoch && now
            < lease.expires_at && now < tasks[id].limits.deadline),
        reply matches Ok(task) ==> task == change(tasks[id]) && after == tasks.insert(id, task),
        reply is Err ==> after == tasks,
        !tasks.contains_key(id) ==> reply == Err::<TaskView, _>(StoreErrorView::TaskNotFound(id)),
        tasks.contains_key(id) && !(tasks[id].status is Leased) ==> reply == Err::<TaskView, _>(
            StoreErrorView::InvalidLease("task is not leased"@),
        ),
        tasks.contains_key(id) && (tasks[id].status matches StatusView::Leased(lease) && (
        lease.owner_id != worker_id || lease.ownership_epoch != ownership_epoch)) ==> reply
            == Err::<TaskView, _>(
            StoreErrorView::InvalidLease("lease belongs to another worker or epoch"@),
        ),
        tasks.contains_key(id) && (tasks[id].status matches StatusView::Leased(lease)
            && lease.owner_id == worker_id && lease.ownership_epoch == ownership_epoch && (now
            >= lease.expires_at || now >= tasks[id].limits.deadline)) ==> reply == Err::<
            TaskView,
            _,
        >(StoreErrorView::LeaseExpired),
{
}

/// A renewal moves the end of the lease and nothing else: as far from now as one
/// attempt may take, but not beyond the deadline. The retries and attempts, the
/// holder and the epoch, and all other tasks are exactly as before.
pub proof fn renewal_moves_only_the_end_of_the_lease(
    tasks: Map<Seq<char>, TaskView>,
    id: Seq<char>,
    worker_id: Seq<char>,
    ownership_epoch: u64,
    now: int,
    renewed: TaskView,
    after: Map<Seq<char>, TaskView>,
)
    requires
        Ok::<_, StoreErrorView>(renewed) == model::holder_reply(
            tasks,
            id,
            worker_id,
            ownership_epoch,
            now,
            |task: TaskView| task.renewed(now),
        ),
        after == model::settled(tasks, id, Ok(renewed)),
    ensures
        after == tasks.insert(id, renewed),
        ({
            let lease = tasks[id].status->Leased_0;
            let end = renewed.status->Leased_0.expires_at;
            &&& tasks[id].status is Leased
            &&& renewed == TaskView {
                status: StatusView::Leased(
                    LeaseView {
                        owner_id: lease.owner_id,
                        ownership_epoch: lease.ownership_epoch,
                        leased_at: lease.leased_at,
                        expires_at: end,
                    },
                ),
                ..tasks[id]
            }
            &&& renewed.retry == tasks[id].retry
            &&& renewed.attempt == tasks[id].attempt
            &&& end <= now + tasks[id].limits.max_execution_time
            &&& end <= tasks[id].limits.deadline
            &&& end == now + tasks[id].limits.max_execution_time || end
                == tasks[id].limits.deadline
        }),
{
}

/// A task that its holder has done is completed at that time, whatever its
/// retries, and nothing else of it or of another task changes.
pub proof fn completion_records_when_the_task_was_done(
    tasks: Map<Seq<char>, TaskView>,
    id: Seq<char>,
    worker_id: Seq<char>,
    ownership_epoch: u64,
    now: int,
    done: TaskView,
    after: Map<Seq<char>, TaskView>,
)
    requires
        Ok::<_, StoreErrorView>(done) == model::holder_reply(
            tasks,
            id,
            worker_id,
            ownership_epoch,
            now,
            |task: TaskView| task.completed(now),
        ),
        after == model::settled(tasks, id, Ok(done)),
    ensures
        done.status == (StatusView::Completed { completed_at: now }),
        done == (TaskView { status: done.status, ..tasks[id] }),
        after == tasks.insert(id, done),
{
}

/// The current holder that completes a task gets it completed, whatever else is
/// true of the task.
pub proof fn current_holder_completes_the_task(
    tasks: Map<Seq<char>, TaskView>,
    id: Seq<char>,
    lease: LeaseView,
    now: int,
)
    requires
        tasks.contains_key(id),
        tasks[id].status == StatusView::Leased(lease),
        now < lease.expires_at,
        now < tasks[id].limits.deadline,
    ensures
        model::holder_reply(
            tasks,
            id,
            lease.owner_id,
            lease.ownership_epoch,
            now,
            |task: TaskView| task.completed(now),
        ) == Ok::<_, StoreErrorView>(
            (TaskView { status: StatusView::Completed { completed_at: now }, ..tasks[id] }),
        ),
{
}

/// A task that its holder gives up is failed at that time for the reason that
/// the holder gives, whatever retries it has left, and nothing else of it or of
/// another task changes.
pub proof fn failure_records_the_reason(
    tasks: Map<Seq<char>, TaskView>,
    id: Seq<char>,
    worker_id: Seq<char>,
    ownership_epoch: u64,
    now: int,
    message: Seq<char>,
    failed: TaskView,
    after: Map<Seq<char>, TaskView>,
)
    requires
        Ok::<_, StoreErrorView>(failed) == model::holder_reply(
            tasks,
            id,
            worker_id,
            ownership_epoch,
            now,
            |task: TaskView| task.failed(now, message),
        ),
        after == model::settled(tasks, id, Ok(failed)),
    ensures
        failed.status == (StatusView::Failed { failed_at: now, message }),
        failed == (TaskView { status: failed.status, ..tasks[id] }),
        after == tasks.insert(id, failed),
{
}

/// An attempt that its holder reports as failed uses up one retry and sends the
/// task back to wait until its deadline, if it has a retry left; otherwise the
/// task is failed at that time for the reason that the holder gives. Nothing
/// else of it or of another task changes.
pub proof fn failed_attempt_uses_up_a_retry(
    tasks: Map<Seq<char>, TaskView>,
    id: Seq<char>,
    worker_id: Seq<char>,
    ownership_epoch: u64,
    now: int,
    message: Seq<char>,
    retried: TaskView,
    after: Map<Seq<char>, TaskView>,
)
    requires
        Ok::<_, StoreErrorView>(retried) == model::holder_reply(
            tasks,
            id,
            worker_id,
            ownership_epoch,
            now,
            |task: TaskView| task.retried(now, message),
        ),
        after == model::settled(tasks, id, Ok(retried)),
    ensures
        after == tasks.insert(id, retried),
        ({
            let task = tasks[id];
            if task.retry.retry_count < task.retry.max_retries {
                &&& retried.retry.retry_count == task.retry.retry_count + 1
                &&& retried.retry.max_retries == task.retry.max_retries
                &&& retried == TaskView {
                    retry: retried.retry,
                    status: StatusView::Pending { expires_at: task.limits.deadline },
                    ..task
                }
            } else {
                retried == TaskView {
                    status: StatusView::Failed { failed_at: now, message },
                    ..task
                }
            }
        }),
{
}

/// A renewal right after another one does what it would have done alone.
pub proof fn last_renewal_counts(task: TaskView, now: int, later: int)
    requires
        task.status is Leased,
    ensures
        task.renewed(now).renewed(later) == task.renewed(later),
{
}

/// The errors are put into words that name the task or give the reason.
pub proof fn store_errors_are_put_into_words(text: Seq<char>)
    ensures
        StoreErrorView::DuplicateTask(text).words() == "task already exists: "@ + text,
        StoreErrorView::TaskNotFound(text).words() == "task not found: "@ + text,
        StoreErrorView::InvalidTask(text).words() == text,
        StoreErrorView::InvalidLease(text).words() == text,
        StoreErrorView::LeaseExpired.words() == "lease has expired"@,
        StoreErrorView::Unavailable.words() == "task store is unavailable"@,
{
}

} // verus!
