//! What happens to a task, and to the tasks of a store, stated over their
//! views.

use vstd::prelude::*;

use crate::domain::{AttemptView, LeaseView, RetryMetadata, StatusView, TaskView};

use super::StoreErrorView;

verus! {

impl TaskView {
    /// When a lease that is granted or renewed at `now` ends: as soon as one
    /// attempt has taken all the time it may, but not after the deadline.
    pub open spec fn lease_expiry(self, now: int) -> int {
        if now + self.limits.max_execution_time <= self.limits.deadline {
            now + self.limits.max_execution_time
        } else {
            self.limits.deadline
        }
    }

    /// Whether a worker of the pool `pool_id` may take the task at `now`.
    pub open spec fn is_available(self, pool_id: Seq<char>, now: int) -> bool {
        &&& self.pool_id == pool_id
        &&& now < self.limits.deadline
        &&& self.status matches StatusView::Pending { expires_at } && now < expires_at
    }

    /// Whether the task has run out of the time it had where it stands.
    pub open spec fn is_expired(self, now: int) -> bool {
        match self.status {
            StatusView::Pending { expires_at } => now >= expires_at || now >= self.limits.deadline,
            StatusView::Leased(lease) => now >= lease.expires_at || now >= self.limits.deadline,
            StatusView::Completed { .. } | StatusView::Failed { .. } => false,
        }
    }

    /// Whether nothing more happens to the task.
    pub open spec fn is_terminal(self) -> bool {
        self.status is Completed || self.status is Failed
    }

    /// Whether the task is handed out before `other`: the higher priority
    /// first, then the older one, then the one whose identity comes first.
    pub open spec fn goes_before(self, other: TaskView) -> bool {
        if self.priority != other.priority {
            self.priority > other.priority
        } else if self.created_at != other.created_at {
            self.created_at < other.created_at
        } else {
            crate::text::precedes(self.id, other.id)
        }
    }

    /// The task once the worker `worker_id` has taken it at `now`.
    pub open spec fn leased(self, worker_id: Seq<char>, ownership_epoch: u64, now: int) -> TaskView {
        TaskView {
            attempt: AttemptView {
                attempts_started: self.attempt.attempts_started.saturating_add(1),
                last_attempt_at: Some(now),
            },
            status: StatusView::Leased(
                LeaseView {
                    owner_id: worker_id,
                    ownership_epoch,
                    leased_at: now,
                    expires_at: self.lease_expiry(now),
                },
            ),
            ..self
        }
    }

    /// The task once its lease was renewed at `now`.
    pub open spec fn renewed(self, now: int) -> TaskView {
        TaskView {
            status: StatusView::Leased(
                LeaseView { expires_at: self.lease_expiry(now), ..self.status->Leased_0 },
            ),
            ..self
        }
    }

    /// The task once it was done at `now`.
    pub open spec fn completed(self, now: int) -> TaskView {
        TaskView { status: StatusView::Completed { completed_at: now }, ..self }
    }

    /// The task once it was given up at `now`.
    pub open spec fn failed(self, now: int, message: Seq<char>) -> TaskView {
        TaskView { status: StatusView::Failed { failed_at: now, message }, ..self }
    }

    /// The task once an attempt has failed at `now`: it waits for another
    /// attempt if it has the time and a retry left, and is given up otherwise.
    pub open spec fn retried(self, now: int, message: Seq<char>) -> TaskView {
        if now >= self.limits.deadline || self.retry.retry_count >= self.retry.max_retries {
            self.failed(now, message)
        } else {
            TaskView {
                retry: RetryMetadata {
                    retry_count: (self.retry.retry_count + 1) as u32,
                    ..self.retry
                },
                status: StatusView::Pending { expires_at: self.limits.deadline },
                ..self
            }
        }
    }

    /// The task once the time was looked at: one that has not run out of it
    /// stays as it is, a lease that has ended counts as a failed attempt, and a
    /// task that nobody took in time is given up.
    pub open spec fn recovered(self, now: int) -> TaskView {
        if !self.is_expired(now) {
            self
        } else if self.status is Leased {
            self.retried(now, "lease expired"@)
        } else {
            self.failed(now, "task expired before it was leased"@)
        }
    }

    /// Why the worker `worker_id` may not act on the task at `now` under the
    /// epoch `ownership_epoch`, if it may not.
    pub open spec fn lease_fault(
        self,
        worker_id: Seq<char>,
        ownership_epoch: u64,
        now: int,
    ) -> Option<StoreErrorView> {
        match self.status {
            StatusView::Leased(lease) => if lease.owner_id != worker_id || lease.ownership_epoch
                != ownership_epoch {
                Some(StoreErrorView::InvalidLease("lease belongs to another worker or epoch"@))
            } else if now >= lease.expires_at || now >= self.limits.deadline {
                Some(StoreErrorView::LeaseExpired)
            } else {
                None
            },
            _ => Some(StoreErrorView::InvalidLease("task is not leased"@)),
        }
    }
}

/// Of two tasks with different identities one goes before the other, and only
/// one does.
pub proof fn goes_before_is_total(left: TaskView, right: TaskView)
    ensures
        left.id == right.id && left.priority == right.priority && left.created_at
            == right.created_at ==> !left.goes_before(right),
        left.id != right.id ==> left.goes_before(right) != right.goes_before(left),
{
    crate::text::precedes_is_total(left.id, right.id);
}

/// A task that goes before a second one goes before all that the second one
/// goes before.
pub proof fn goes_before_is_transitive(first: TaskView, second: TaskView, third: TaskView)
    requires
        first.goes_before(second),
        second.goes_before(third),
    ensures
        first.goes_before(third),
{
    if first.priority == second.priority && second.priority == third.priority && first.created_at
        == second.created_at && second.created_at == third.created_at {
        crate::text::precedes_is_transitive(first.id, second.id, third.id);
    }
}

/// What holds of the tasks of a store, by identity, at all times: each stands
/// under its own identity, may take some time, and has no lease beyond its
/// deadline.
pub open spec fn is_valid(tasks: Map<Seq<char>, TaskView>) -> bool {
    forall|id: Seq<char>| #[trigger]
        tasks.contains_key(id) ==> {
            &&& tasks[id].id == id
            &&& tasks[id].limits.max_execution_time > 0
            &&& tasks[id].status matches StatusView::Leased(lease) ==> lease.expires_at
                <= tasks[id].limits.deadline
        }
}

/// Why no store takes `task`, if none does.
pub open spec fn submit_fault(task: TaskView) -> Option<StoreErrorView> {
    if !(task.status is Pending) {
        Some(StoreErrorView::InvalidTask("submitted tasks must be pending"@))
    } else if task.limits.max_execution_time == 0 {
        Some(StoreErrorView::InvalidTask("max execution time must be greater than zero"@))
    } else {
        None
    }
}

/// What the submission of `task` is answered.
pub open spec fn submit_reply(tasks: Map<Seq<char>, TaskView>, task: TaskView) -> Result<
    (),
    StoreErrorView,
> {
    match submit_fault(task) {
        Some(fault) => Err(fault),
        None => if tasks.contains_key(task.id) {
            Err(StoreErrorView::DuplicateTask(task.id))
        } else {
            Ok(())
        },
    }
}

/// The tasks after the submission of `task`.
pub open spec fn submitted(tasks: Map<Seq<char>, TaskView>, task: TaskView) -> Map<
    Seq<char>,
    TaskView,
> {
    match submit_reply(tasks, task) {
        Ok(()) => tasks.insert(task.id, task),
        Err(_) => tasks,
    }
}

/// What a worker is answered that asks for the task `id` to become what
/// `change` makes of it.
pub open spec fn holder_reply(
    tasks: Map<Seq<char>, TaskView>,
    id: Seq<char>,
    worker_id: Seq<char>,
    ownership_epoch: u64,
    now: int,
    change: spec_fn(TaskView) -> TaskView,
) -> Result<TaskView, StoreErrorView> {
    if !tasks.contains_key(id) {
        Err(StoreErrorView::TaskNotFound(id))
    } else {
        match tasks[id].lease_fault(worker_id, ownership_epoch, now) {
            Some(fault) => Err(fault),
            None => Ok(change(tasks[id])),
        }
    }
}

/// The tasks after such a request was answered with `reply`.
pub open spec fn settled(
    tasks: Map<Seq<char>, TaskView>,
    id: Seq<char>,
    reply: Result<TaskView, StoreErrorView>,
) -> Map<Seq<char>, TaskView> {
    match reply {
        Ok(task) => tasks.insert(id, task),
        Err(_) => tasks,
    }
}

/// The tasks once the time was looked at.
pub open spec fn recovered(tasks: Map<Seq<char>, TaskView>, now: int) -> Map<Seq<char>, TaskView> {
    tasks.map_values(|task: TaskView| task.recovered(now))
}

/// Whether `changed` lists, each once, the tasks that have run out of time by
/// `now`, as they stand once the time was looked at.
pub open spec fn lists_changes(
    tasks: Map<Seq<char>, TaskView>,
    now: int,
    changed: Seq<TaskView>,
) -> bool {
    &&& forall|k: int|
        0 <= k < changed.len() ==> {
            &&& tasks.contains_key((#[trigger] changed[k]).id)
            &&& tasks[changed[k].id].is_expired(now)
            &&& changed[k] == tasks[changed[k].id].recovered(now)
        }
    &&& forall|id: Seq<char>| #[trigger]
        tasks.contains_key(id) && tasks[id].is_expired(now) ==> exists|k: int|
            0 <= k < changed.len() && (#[trigger] changed[k]).id == id
    &&& forall|k: int, l: int|
        0 <= k < l < changed.len() ==> (#[trigger] changed[k]).id != (#[trigger] changed[l]).id
}

/// Whether `id` is the task that the next worker of the pool `pool_id` gets.
pub open spec fn is_next(
    tasks: Map<Seq<char>, TaskView>,
    pool_id: Seq<char>,
    now: int,
    id: Seq<char>,
) -> bool {
    &&& tasks.contains_key(id)
    &&& tasks[id].is_available(pool_id, now)
    &&& forall|other: Seq<char>| #[trigger]
        tasks.contains_key(other) && tasks[other].is_available(pool_id, now) && other != id
            ==> tasks[id].goes_before(tasks[other])
}

/// Whether `after` and `given` are what becomes of the tasks `before` and what
/// the worker `worker_id` of the pool `pool_id` gets when it asks for a task:
/// first the time is looked at, then the next task goes to the worker, or none
/// does if none is available.
pub open spec fn leases_next(
    before: Map<Seq<char>, TaskView>,
    pool_id: Seq<char>,
    worker_id: Seq<char>,
    ownership_epoch: u64,
    now: int,
    after: Map<Seq<char>, TaskView>,
    given: Option<TaskView>,
) -> bool {
    let waiting = recovered(before, now);
    match given {
        Some(task) => {
            &&& is_next(waiting, pool_id, now, task.id)
            &&& task == waiting[task.id].leased(worker_id, ownership_epoch, now)
            &&& after == waiting.insert(task.id, task)
        },
        None => {
            &&& forall|id: Seq<char>| #[trigger]
                waiting.contains_key(id) ==> !waiting[id].is_available(pool_id, now)
            &&& after == waiting
        },
    }
}

} // verus!
