//! What the calls of a store in memory do, said of the calls themselves: what is
//! answered, what the store holds then, and how one call bears on the next.

use vstd::prelude::*;

use super::{InMemoryTaskStore, TaskStoreError};
use crate::domain::{AttemptView, LeaseView, PoolId, StatusView, Task, TaskId, TaskView};
use crate::time::SystemTime;
use crate::worker::WorkerId;

verus! {

/// Whether `task` is leased to the worker `worker_id` under the epoch
/// `ownership_epoch`, with neither the lease nor the deadline at its end.
pub open spec fn is_held(
    task: TaskView,
    worker_id: Seq<char>,
    ownership_epoch: u64,
    now: int,
) -> bool {
    task.status matches StatusView::Leased(lease) && lease.owner_id == worker_id
        && lease.ownership_epoch == ownership_epoch && now < lease.expires_at && now
        < task.limits.deadline
}

/// Whether a worker of the pool `pool_id` that asks at `now` could have `task`.
pub open spec fn can_be_had(task: TaskView, pool_id: Seq<char>, now: int) -> bool {
    &&& task.pool_id == pool_id
    &&& now < task.limits.deadline
    &&& match task.status {
        StatusView::Pending { expires_at } => now < expires_at,
        StatusView::Leased(lease) => now >= lease.expires_at && task.retry.retry_count
            < task.retry.max_retries,
        _ => false,
    }
}

/// Whether `end` is `limit`, or `span` after `now` if that comes first.
pub open spec fn is_earlier_end(end: int, now: int, span: int, limit: int) -> bool {
    end <= limit && end <= now + span && (end == limit || end == now + span)
}

/// A new store holds no task.
pub proof fn new_store_is_empty(store: InMemoryTaskStore, id: TaskId, found: Option<Task>)
    requires
        call_ensures(InMemoryTaskStore::new, (), store),
        call_ensures(InMemoryTaskStore::get, (&store, &id), found),
    ensures
        found is None,
        store.wf(),
{
}

/// A task passes the check if and only if it is pending and is allowed some
/// execution time; otherwise it is told which of the two is wrong.
pub proof fn check_tells_what_is_wrong(task: Task, result: Result<(), TaskStoreError>)
    requires
        call_ensures(InMemoryTaskStore::check, (&task,), result),
    ensures
        result is Ok <==> task@.status is Pending && task@.limits.max_execution_time > 0,
        result matches Err(error) ==> (error matches TaskStoreError::InvalidTask(reason) && reason@
            == if task@.status is Pending {
            "max execution time must be greater than zero"@
        } else {
            "submitted tasks must be pending"@
        }),
{
}

/// A task is taken if and only if it is pending, is allowed some execution time
/// and has an identity that no task of the store has. The store then holds it as
/// it was submitted, beside all that it held. Otherwise the store stays as it is
/// and says what is wrong.
pub proof fn submit_takes_tasks_that_can_be_taken()
    ensures
        forall|store: &mut InMemoryTaskStore, task: Task, result: Result<(), TaskStoreError>|
            (#[trigger] call_ensures(InMemoryTaskStore::submit, (store, task), result))
                && store.wf() ==> {
                &&& final(store).wf()
                &&& result is Ok <==> task@.status is Pending && task@.limits.max_execution_time > 0
                    && !store@.contains_key(task@.id)
                &&& final(store)@ == if result is Ok {
                    store@.insert(task@.id, task@)
                } else {
                    store@
                }
                &&& result matches Err(error) ==> if !(task@.status is Pending) {
                    error matches TaskStoreError::InvalidTask(reason) && reason@
                        == "submitted tasks must be pending"@
                } else if task@.limits.max_execution_time == 0 {
                    error matches TaskStoreError::InvalidTask(reason) && reason@
                        == "max execution time must be greater than zero"@
                } else {
                    error matches TaskStoreError::DuplicateTask(id) && id@ == task@.id
                }
            },
{
}

/// What was submitted is what is got.
pub proof fn submitted_task_is_got_back()
    ensures
        forall|
            store: &mut InMemoryTaskStore,
            task: Task,
            result: Result<(), TaskStoreError>,
            id: TaskId,
            found: Option<Task>,
        |
            (#[trigger] call_ensures(InMemoryTaskStore::submit, (store, task), result))
                && store.wf() && result is Ok && id@ == task@.id && (#[trigger] call_ensures(
                InMemoryTaskStore::get,
                (&*final(store), &id),
                found,
            )) ==> (found matches Some(same) && same@ == task@),
{
}

/// A worker that asks always gets an answer, and gets a task whenever one of its
/// pool is pending before its expiry and its deadline, or was left behind by its
/// holder with the time and a retry left; nothing else of the task matters.
pub proof fn lease_next_hands_out_what_can_be_had()
    ensures
        forall|
            store: &mut InMemoryTaskStore,
            pool_id: PoolId,
            worker_id: WorkerId,
            ownership_epoch: u64,
            now: SystemTime,
            result: Result<Option<Task>, TaskStoreError>,
            id: Seq<char>,
        |
            (#[trigger] call_ensures(
                InMemoryTaskStore::lease_next,
                (store, &pool_id, &worker_id, ownership_epoch, now),
                result,
            )) && store.wf() ==> {
                &&& final(store).wf()
                &&& result is Ok
                &&& (#[trigger] store@.contains_key(id)) && can_be_had(store@[id], pool_id@, now@)
                    ==> (result matches Ok(Some(_)))
            },
{
    assert forall|
        store: &mut InMemoryTaskStore,
        pool_id: PoolId,
        worker_id: WorkerId,
        ownership_epoch: u64,
        now: SystemTime,
        result: Result<Option<Task>, TaskStoreError>,
        id: Seq<char>,
    |
        (#[trigger] call_ensures(
            InMemoryTaskStore::lease_next,
            (store, &pool_id, &worker_id, ownership_epoch, now),
            result,
        )) && store.wf() implies {
        &&& final(store).wf()
        &&& result is Ok
        &&& (#[trigger] store@.contains_key(id)) && can_be_had(store@[id], pool_id@, now@) ==> (
        result matches Ok(Some(_)))
    } by {
        assert(store@.contains_key(id) ==> super::model::recovered(store@, now@).contains_key(id));
    }
}

/// The task that a worker gets could be had by it, and is as urgent as any that
/// could. It is leased to the worker as asked, until the earlier of the time that
/// an attempt may take and the deadline, with one more attempt, and one more
/// retry if its holder had left it behind. All else of it is as it was.
pub proof fn lease_next_leases_the_most_urgent_task()
    ensures
        forall|
            store: &mut InMemoryTaskStore,
            pool_id: PoolId,
            worker_id: WorkerId,
            ownership_epoch: u64,
            now: SystemTime,
            task: Task,
        |
            (#[trigger] call_ensures(
                InMemoryTaskStore::lease_next,
                (store, &pool_id, &worker_id, ownership_epoch, now),
                Ok(Some(task)),
            )) && store.wf() ==> {
                let before = store@[task@.id];
                let end = task@.status->Leased_0.expires_at;
                &&& store@.contains_key(task@.id)
                &&& can_be_had(before, pool_id@, now@)
                &&& final(store)@.contains_key(task@.id)
                &&& final(store)@[task@.id] == task@
                &&& task@ == TaskView {
                    retry: task@.retry,
                    attempt: AttemptView {
                        attempts_started: task@.attempt.attempts_started,
                        last_attempt_at: Some(now@),
                    },
                    status: StatusView::Leased(
                        LeaseView {
                            owner_id: worker_id@,
                            ownership_epoch,
                            leased_at: now@,
                            expires_at: end,
                        },
                    ),
                    ..before
                }
                &&& is_earlier_end(
                    end,
                    now@,
                    before.limits.max_execution_time as int,
                    before.limits.deadline,
                )
                &&& task@.attempt.attempts_started == if before.attempt.attempts_started
                    < u32::MAX {
                    before.attempt.attempts_started + 1
                } else {
                    u32::MAX as int
                }
                &&& task@.retry.max_retries == before.retry.max_retries
                &&& task@.retry.retry_count == before.retry.retry_count + if before.status is Leased {
                    1int
                } else {
                    0int
                }
                &&& forall|other: Seq<char>| #[trigger]
                    store@.contains_key(other) && can_be_had(store@[other], pool_id@, now@) && other
                        != task@.id ==> {
                        ||| task@.priority > store@[other].priority
                        ||| task@.priority == store@[other].priority && task@.created_at
                            < store@[other].created_at
                        ||| task@.priority == store@[other].priority && task@.created_at
                            == store@[other].created_at && crate::text::precedes(task@.id, other)
                    }
            },
{
    assert forall|
        store: &mut InMemoryTaskStore,
        pool_id: PoolId,
        worker_id: WorkerId,
        ownership_epoch: u64,
        now: SystemTime,
        task: Task,
        other: Seq<char>,
    |
        (#[trigger] call_ensures(
            InMemoryTaskStore::lease_next,
            (store, &pool_id, &worker_id, ownership_epoch, now),
            Ok(Some(task)),
        )) && store.wf() && (#[trigger] store@.contains_key(other)) && can_be_had(
            store@[other],
            pool_id@,
            now@,
        ) && other != task@.id implies {
        ||| task@.priority > store@[other].priority
        ||| task@.priority == store@[other].priority && task@.created_at
            < store@[other].created_at
        ||| task@.priority == store@[other].priority && task@.created_at
            == store@[other].created_at && crate::text::precedes(task@.id, other)
    } by {
        super::promises::given_task_is_the_most_urgent(
            store@,
            pool_id@,
            worker_id@,
            ownership_epoch,
            now@,
            final(store)@,
            task@,
            other,
        );
    }
}

/// Whether `later` is what a look at the time at `now` makes of `task`.
pub open spec fn is_recovered(task: TaskView, now: int, later: TaskView) -> bool {
    match task.status {
        StatusView::Completed { .. } | StatusView::Failed { .. } => later == task,
        StatusView::Pending { expires_at } => if now < expires_at && now < task.limits.deadline {
            later == task
        } else {
            later == TaskView {
                status: StatusView::Failed {
                    failed_at: now,
                    message: "task expired before it was leased"@,
                },
                ..task
            }
        },
        StatusView::Leased(lease) => if now < lease.expires_at && now < task.limits.deadline {
            later == task
        } else if now < task.limits.deadline && task.retry.retry_count < task.retry.max_retries {
            &&& later.retry.retry_count == task.retry.retry_count + 1
            &&& later.retry.max_retries == task.retry.max_retries
            &&& later == TaskView {
                retry: later.retry,
                status: StatusView::Pending { expires_at: task.limits.deadline },
                ..task
            }
        } else {
            later == TaskView {
                status: StatusView::Failed { failed_at: now, message: "lease expired"@ },
                ..task
            }
        },
    }
}

/// When a worker asks, no task comes or goes, and each but the one that it gets
/// is as a look at the time leaves it.
pub proof fn lease_next_only_recovers_other_tasks()
    ensures
        forall|
            store: &mut InMemoryTaskStore,
            pool_id: PoolId,
            worker_id: WorkerId,
            ownership_epoch: u64,
            now: SystemTime,
            given: Option<Task>,
            id: Seq<char>,
        |
            (#[trigger] call_ensures(
                InMemoryTaskStore::lease_next,
                (store, &pool_id, &worker_id, ownership_epoch, now),
                Ok(given),
            )) && store.wf() ==> {
                &&& (#[trigger] store@.contains_key(id)) <==> final(store)@.contains_key(id)
                &&& store@.contains_key(id) && !(given matches Some(task) && task@.id == id)
                    ==> is_recovered(store@[id], now@, final(store)@[id])
            },
{
}

/// A recovery always gets an answer. It leaves each task as a look at the time
/// does, and gives back exactly those that it has changed, each once and as it
/// then stands.
pub proof fn recover_expired_gives_back_what_it_has_changed()
    ensures
        forall|
            store: &mut InMemoryTaskStore,
            now: SystemTime,
            result: Result<Vec<Task>, TaskStoreError>,
        |
            (#[trigger] call_ensures(InMemoryTaskStore::recover_expired, (store, now), result))
                && store.wf() ==> {
                &&& final(store).wf()
                &&& result is Ok
                &&& forall|id: Seq<char>|
                    {
                        &&& (#[trigger] store@.contains_key(id)) <==> final(store)@.contains_key(id)
                        &&& store@.contains_key(id) ==> is_recovered(
                            store@[id],
                            now@,
                            final(store)@[id],
                        )
                        &&& store@.contains_key(id) && final(store)@[id] != store@[id] ==> exists|
                            k: int,
                        |
                            0 <= k < result->Ok_0@.len() && (#[trigger] result->Ok_0@[k])@.id == id
                    }
                &&& forall|k: int|
                    0 <= k < result->Ok_0@.len() ==> {
                        let changed = (#[trigger] result->Ok_0@[k])@;
                        &&& store@.contains_key(changed.id)
                        &&& changed == final(store)@[changed.id]
                        &&& changed != store@[changed.id]
                    }
                &&& forall|k: int, l: int|
                    0 <= k < l < result->Ok_0@.len() ==> (#[trigger] result->Ok_0@[k])@.id != (
                    #[trigger] result->Ok_0@[l])@.id
            },
{
    assert forall|
        store: &mut InMemoryTaskStore,
        now: SystemTime,
        result: Result<Vec<Task>, TaskStoreError>,
    |
        (#[trigger] call_ensures(InMemoryTaskStore::recover_expired, (store, now), result))
            && store.wf() implies {
        &&& forall|id: Seq<char>|
            (#[trigger] store@.contains_key(id)) && final(store)@[id] != store@[id] ==> exists|
                k: int,
            | 0 <= k < result->Ok_0@.len() && (#[trigger] result->Ok_0@[k])@.id == id
        &&& forall|k: int|
            0 <= k < result->Ok_0@.len() ==> {
                let changed = (#[trigger] result->Ok_0@[k])@;
                &&& store@.contains_key(changed.id)
                &&& changed == final(store)@[changed.id]
                &&& changed != store@[changed.id]
            }
        &&& forall|k: int, l: int|
            0 <= k < l < result->Ok_0@.len() ==> (#[trigger] result->Ok_0@[k])@.id != (
            #[trigger] result->Ok_0@[l])@.id
    } by {
        let changed = result->Ok_0@;
        let views = changed.map_values(|task: Task| task@);
        assert forall|k: int| 0 <= k < changed.len() implies (#[trigger] changed[k])@
            == views[k] by {}
        assert forall|id: Seq<char>|
            (#[trigger] store@.contains_key(id)) && final(store)@[id] != store@[id] implies exists|
            k: int,
        | 0 <= k < changed.len() && (#[trigger] changed[k])@.id == id by {
            assert(store@[id].is_expired(now@));
            let k = choose|k: int| 0 <= k < views.len() && (#[trigger] views[k]).id == id;
            assert(changed[k]@.id == id);
        }
        assert forall|k: int, l: int| 0 <= k < l < changed.len() implies (
        #[trigger] changed[k])@.id != (#[trigger] changed[l])@.id by {
            assert(views[k].id != views[l].id);
        }
    }
}

/// The holder of a lease gets it renewed, and nobody else does. A renewal moves
/// the end of the lease to the earlier of the time that an attempt may take from
/// now on and the deadline. Nothing else changes, and a refusal changes nothing.
pub proof fn renew_moves_only_the_end_of_the_lease()
    ensures
        forall|
            store: &mut InMemoryTaskStore,
            id: TaskId,
            worker_id: WorkerId,
            ownership_epoch: u64,
            now: SystemTime,
            result: Result<Task, TaskStoreError>,
        |
            (#[trigger] call_ensures(
                InMemoryTaskStore::renew,
                (store, &id, &worker_id, ownership_epoch, now),
                result,
            )) && store.wf() ==> {
                let before = store@[id@];
                &&& final(store).wf()
                &&& result is Ok <==> store@.contains_key(id@) && is_held(
                    before,
                    worker_id@,
                    ownership_epoch,
                    now@,
                )
                &&& result is Err ==> final(store)@ == store@
                &&& result matches Ok(task) ==> {
                    &&& final(store)@ == store@.insert(id@, task@)
                    &&& task@ == TaskView {
                        status: StatusView::Leased(
                            LeaseView {
                                owner_id: worker_id@,
                                ownership_epoch,
                                leased_at: before.status->Leased_0.leased_at,
                                expires_at: task@.status->Leased_0.expires_at,
                            },
                        ),
                        ..before
                    }
                    &&& is_earlier_end(
                        task@.status->Leased_0.expires_at,
                        now@,
                        before.limits.max_execution_time as int,
                        before.limits.deadline,
                    )
                }
            },
{
}

/// The holder of a lease gets its task completed at that time, whatever the
/// retries, and nobody else does. Nothing else changes, and a refusal changes
/// nothing.
pub proof fn complete_records_when_the_task_was_done()
    ensures
        forall|
            store: &mut InMemoryTaskStore,
            id: TaskId,
            worker_id: WorkerId,
            ownership_epoch: u64,
            now: SystemTime,
            result: Result<Task, TaskStoreError>,
        |
            (#[trigger] call_ensures(
                InMemoryTaskStore::complete,
                (store, &id, &worker_id, ownership_epoch, now),
                result,
            )) && store.wf() ==> {
                &&& final(store).wf()
                &&& result is Ok <==> store@.contains_key(id@) && is_held(
                    store@[id@],
                    worker_id@,
                    ownership_epoch,
                    now@,
                )
                &&& result is Err ==> final(store)@ == store@
                &&& result matches Ok(task) ==> {
                    &&& final(store)@ == store@.insert(id@, task@)
                    &&& task@ == TaskView {
                        status: StatusView::Completed { completed_at: now@ },
                        ..store@[id@]
                    }
                }
            },
{
}

/// The holder of a lease that gives its task up gets it failed at that time for
/// its reason, whatever retries are left, and nobody else does. Nothing else
/// changes, and a refusal changes nothing.
pub proof fn fail_records_the_reason()
    ensures
        forall|
            store: &mut InMemoryTaskStore,
            id: TaskId,
            worker_id: WorkerId,
            ownership_epoch: u64,
            now: SystemTime,
            message: String,
            result: Result<Task, TaskStoreError>,
        |
            (#[trigger] call_ensures(
                InMemoryTaskStore::fail::<String>,
                (store, &id, &worker_id, ownership_epoch, now, message),
                result,
            )) && store.wf() ==> {
                &&& final(store).wf()
                &&& result is Ok <==> store@.contains_key(id@) && is_held(
                    store@[id@],
                    worker_id@,
                    ownership_epoch,
                    now@,
                )
                &&& result is Err ==> final(store)@ == store@
                &&& result matches Ok(task) ==> {
                    &&& final(store)@ == store@.insert(id@, task@)
                    &&& task@ == TaskView {
                        status: StatusView::Failed { failed_at: now@, message: message@ },
                        ..store@[id@]
                    }
                }
            },
{
}

/// The holder of a lease that reports a failed attempt sends its task back to
/// wait until the deadline with one more retry, if there is one left, and gets it
/// failed for its reason if not; nobody else does. Nothing else changes, and a
/// refusal changes nothing.
pub proof fn retry_uses_up_a_retry()
    ensures
        forall|
            store: &mut InMemoryTaskStore,
            id: TaskId,
            worker_id: WorkerId,
            ownership_epoch: u64,
            now: SystemTime,
            message: String,
            result: Result<Task, TaskStoreError>,
        |
            (#[trigger] call_ensures(
                InMemoryTaskStore::retry::<String>,
                (store, &id, &worker_id, ownership_epoch, now, message),
                result,
            )) && store.wf() ==> {
                let before = store@[id@];
                &&& final(store).wf()
                &&& result is Ok <==> store@.contains_key(id@) && is_held(
                    before,
                    worker_id@,
                    ownership_epoch,
                    now@,
                )
                &&& result is Err ==> final(store)@ == store@
                &&& result matches Ok(task) ==> final(store)@ == store@.insert(id@, task@) && if
                before.retry.retry_count < before.retry.max_retries {
                    &&& task@.retry.retry_count == before.retry.retry_count + 1
                    &&& task@.retry.max_retries == before.retry.max_retries
                    &&& task@ == TaskView {
                        retry: task@.retry,
                        status: StatusView::Pending { expires_at: before.limits.deadline },
                        ..before
                    }
                } else {
                    task@ == TaskView {
                        status: StatusView::Failed { failed_at: now@, message: message@ },
                        ..before
                    }
                }
            },
{
}

/// Whether `error` tells a worker why it may not act on the task `id`.
pub open spec fn tells_why(
    error: TaskStoreError,
    tasks: Map<Seq<char>, TaskView>,
    id: Seq<char>,
    worker_id: Seq<char>,
    ownership_epoch: u64,
) -> bool {
    if !tasks.contains_key(id) {
        error matches TaskStoreError::TaskNotFound(missing) && missing@ == id
    } else {
        match tasks[id].status {
            StatusView::Leased(lease) => if lease.owner_id != worker_id || lease.ownership_epoch
                != ownership_epoch {
                error matches TaskStoreError::InvalidLease(reason) && reason@
                    == "lease belongs to another worker or epoch"@
            } else {
                error is LeaseExpired
            },
            _ => error matches TaskStoreError::InvalidLease(reason) && reason@
                == "task is not leased"@,
        }
    }
}

/// A worker that is refused is told why, whatever it asked for.
pub proof fn refused_worker_is_told_why()
    ensures
        forall|
            store: &mut InMemoryTaskStore,
            id: TaskId,
            worker_id: WorkerId,
            epoch: u64,
            now: SystemTime,
            error: TaskStoreError,
        |
            (#[trigger] call_ensures(
                InMemoryTaskStore::renew,
                (store, &id, &worker_id, epoch, now),
                Err(error),
            )) && store.wf() ==> tells_why(error, store@, id@, worker_id@, epoch),
        forall|
            store: &mut InMemoryTaskStore,
            id: TaskId,
            worker_id: WorkerId,
            epoch: u64,
            now: SystemTime,
            error: TaskStoreError,
        |
            (#[trigger] call_ensures(
                InMemoryTaskStore::complete,
                (store, &id, &worker_id, epoch, now),
                Err(error),
            )) && store.wf() ==> tells_why(error, store@, id@, worker_id@, epoch),
        forall|
            store: &mut InMemoryTaskStore,
            id: TaskId,
            worker_id: WorkerId,
            epoch: u64,
            now: SystemTime,
            message: String,
            error: TaskStoreError,
        |
            (#[trigger] call_ensures(
                InMemoryTaskStore::retry::<String>,
                (store, &id, &worker_id, epoch, now, message),
                Err(error),
            )) && store.wf() ==> tells_why(error, store@, id@, worker_id@, epoch),
        forall|
            store: &mut InMemoryTaskStore,
            id: TaskId,
            worker_id: WorkerId,
            epoch: u64,
            now: SystemTime,
            message: String,
            error: TaskStoreError,
        |
            (#[trigger] call_ensures(
                InMemoryTaskStore::fail::<String>,
                (store, &id, &worker_id, epoch, now, message),
                Err(error),
            )) && store.wf() ==> tells_why(error, store@, id@, worker_id@, epoch),
{
}

/// A task that was completed is got as completed.
pub proof fn completed_task_is_got_as_completed()
    ensures
        forall|
            store: &mut InMemoryTaskStore,
            id: TaskId,
            worker_id: WorkerId,
            epoch: u64,
            now: SystemTime,
            done: Task,
            found: Option<Task>,
        |
            (#[trigger] call_ensures(
                InMemoryTaskStore::complete,
                (store, &id, &worker_id, epoch, now),
                Ok(done),
            )) && store.wf() && (#[trigger] call_ensures(
                InMemoryTaskStore::get,
                (&*final(store), &id),
                found,
            )) ==> (found matches Some(task) && task@ == done@ && task@.status == (
            StatusView::Completed { completed_at: now@ })),
{
}

/// The errors of a store are put into words that name the task or give the
/// reason.
pub proof fn store_errors_are_described(error: TaskStoreError, words: String)
    requires
        call_ensures(TaskStoreError::describe, (&error,), words),
    ensures
        match error {
            TaskStoreError::DuplicateTask(id) => words@ == "task already exists: "@ + id.0@,
            TaskStoreError::TaskNotFound(id) => words@ == "task not found: "@ + id.0@,
            TaskStoreError::InvalidTask(reason) => words@ == reason@,
            TaskStoreError::InvalidLease(reason) => words@ == reason@,
            TaskStoreError::LeaseExpired => words@ == "lease has expired"@,
            TaskStoreError::Unavailable => words@ == "task store is unavailable"@,
        },
{
}

} // verus!
