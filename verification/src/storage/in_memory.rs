//! A store that keeps its tasks in memory.

use vstd::prelude::*;

use super::model;
use crate::domain::{Lease, LeaseOwnerId, PoolId, Task, TaskId, TaskStatus, TaskView};
use crate::text;
use crate::time::SystemTime;
use crate::worker::WorkerId;

verus! {

/// Why a store refuses a request.
#[derive(Debug, PartialEq, Eq)]
pub enum TaskStoreError {
    /// A task with this identity is already there.
    DuplicateTask(TaskId),
    /// There is no task with this identity.
    TaskNotFound(TaskId),
    /// The task cannot be submitted.
    InvalidTask(String),
    /// The lease is not the task's current one.
    InvalidLease(String),
    /// The lease has ended.
    LeaseExpired,
    /// The store cannot be reached.
    Unavailable,
}

/// What a [`TaskStoreError`] says.
pub enum StoreErrorView {
    DuplicateTask(Seq<char>),
    TaskNotFound(Seq<char>),
    InvalidTask(Seq<char>),
    InvalidLease(Seq<char>),
    LeaseExpired,
    Unavailable,
}

impl View for TaskStoreError {
    type V = StoreErrorView;

    open spec fn view(&self) -> StoreErrorView {
        match self {
            TaskStoreError::DuplicateTask(id) => StoreErrorView::DuplicateTask(id@),
            TaskStoreError::TaskNotFound(id) => StoreErrorView::TaskNotFound(id@),
            TaskStoreError::InvalidTask(message) => StoreErrorView::InvalidTask(message@),
            TaskStoreError::InvalidLease(message) => StoreErrorView::InvalidLease(message@),
            TaskStoreError::LeaseExpired => StoreErrorView::LeaseExpired,
            TaskStoreError::Unavailable => StoreErrorView::Unavailable,
        }
    }
}

impl StoreErrorView {
    /// The error in words.
    pub open spec fn words(self) -> Seq<char> {
        match self {
            StoreErrorView::DuplicateTask(id) => "task already exists: "@ + id,
            StoreErrorView::TaskNotFound(id) => "task not found: "@ + id,
            StoreErrorView::InvalidTask(message) => message,
            StoreErrorView::InvalidLease(message) => message,
            StoreErrorView::LeaseExpired => "lease has expired"@,
            StoreErrorView::Unavailable => "task store is unavailable"@,
        }
    }
}

impl TaskStoreError {
    /// The error in words.
    pub fn describe(&self) -> (result: String)
        ensures
            result@ == self@.words(),
    {
        match self {
            TaskStoreError::DuplicateTask(id) => String::from("task already exists: ").concat(
                id.0.as_str(),
            ),
            TaskStoreError::TaskNotFound(id) => String::from("task not found: ").concat(
                id.0.as_str(),
            ),
            TaskStoreError::InvalidTask(message) => message.clone(),
            TaskStoreError::InvalidLease(message) => message.clone(),
            TaskStoreError::LeaseExpired => "lease has expired".into(),
            TaskStoreError::Unavailable => "task store is unavailable".into(),
        }
    }
}

impl Clone for TaskStoreError {
    fn clone(&self) -> (result: Self)
        ensures
            result@ == self@,
    {
        match self {
            TaskStoreError::DuplicateTask(id) => TaskStoreError::DuplicateTask(id.clone()),
            TaskStoreError::TaskNotFound(id) => TaskStoreError::TaskNotFound(id.clone()),
            TaskStoreError::InvalidTask(message) => TaskStoreError::InvalidTask(message.clone()),
            TaskStoreError::InvalidLease(message) => TaskStoreError::InvalidLease(message.clone()),
            TaskStoreError::LeaseExpired => TaskStoreError::LeaseExpired,
            TaskStoreError::Unavailable => TaskStoreError::Unavailable,
        }
    }
}

/// The answer to a worker, by its view.
pub open spec fn reply_view(reply: Result<Task, TaskStoreError>) -> Result<
    TaskView,
    StoreErrorView,
> {
    match reply {
        Ok(task) => Ok(task@),
        Err(error) => Err(error@),
    }
}

/// A store that keeps its tasks in memory. Its view is the tasks by identity.
pub struct InMemoryTaskStore {
    tasks: Vec<Task>,
}

/// Whether no two tasks have the same identity.
spec fn distinct(tasks: Seq<Task>) -> bool {
    forall|i: int, j: int|
        0 <= i < j < tasks.len() ==> #[trigger] tasks[i].id@ != #[trigger] tasks[j].id@
}

/// Whether `i` is the place of the task `id`.
spec fn is_place(tasks: Seq<Task>, id: Seq<char>, i: int) -> bool {
    0 <= i < tasks.len() && tasks[i].id@ == id
}

/// The tasks by identity.
spec fn by_id(tasks: Seq<Task>) -> Map<Seq<char>, TaskView> {
    Map::new(
        |id: Seq<char>| exists|i: int| is_place(tasks, id, i),
        |id: Seq<char>| tasks[choose|i: int| is_place(tasks, id, i)]@,
    )
}

proof fn lemma_by_id(tasks: Seq<Task>)
    requires
        distinct(tasks),
    ensures
        forall|i: int|
            0 <= i < tasks.len() ==> by_id(tasks).contains_key(#[trigger] tasks[i].id@) && by_id(
                tasks,
            )[tasks[i].id@] == tasks[i]@,
        forall|id: Seq<char>|
            by_id(tasks).contains_key(id) ==> exists|i: int| is_place(tasks, id, i),
{
    assert forall|i: int| 0 <= i < tasks.len() implies by_id(tasks).contains_key(
        #[trigger] tasks[i].id@,
    ) && by_id(tasks)[tasks[i].id@] == tasks[i]@ by {
        assert(is_place(tasks, tasks[i].id@, i));
        let j = choose|j: int| is_place(tasks, tasks[i].id@, j);
        assert(is_place(tasks, tasks[i].id@, j));
        assert(i == j);
    }
}

proof fn lemma_by_id_update(tasks: Seq<Task>, i: int, task: Task)
    requires
        distinct(tasks),
        0 <= i < tasks.len(),
        task.id@ == tasks[i].id@,
    ensures
        distinct(tasks.update(i, task)),
        by_id(tasks.update(i, task)) == by_id(tasks).insert(task.id@, task@),
{
    let after = tasks.update(i, task);
    assert(distinct(after));
    lemma_by_id(tasks);
    lemma_by_id(after);
    assert forall|id: Seq<char>| #![auto]
        by_id(after).contains_key(id) == by_id(tasks).insert(task.id@, task@).contains_key(
            id,
        ) by {
        if by_id(after).contains_key(id) {
            let j = choose|j: int| is_place(after, id, j);
            assert(is_place(tasks, id, j));
        }
        if by_id(tasks).contains_key(id) {
            let j = choose|j: int| is_place(tasks, id, j);
            assert(is_place(after, id, j));
        }
        if id == task.id@ {
            assert(is_place(after, id, i));
        }
    }
    assert forall|id: Seq<char>| by_id(after).contains_key(id) implies #[trigger] by_id(after)[id]
        == by_id(tasks).insert(task.id@, task@)[id] by {
        let j = choose|j: int| is_place(after, id, j);
        assert(after[j].id@ == id);
        assert(tasks[j].id@ == id);
    }
    assert(by_id(after) =~= by_id(tasks).insert(task.id@, task@));
}

proof fn lemma_by_id_push(tasks: Seq<Task>, task: Task)
    requires
        distinct(tasks),
        !by_id(tasks).contains_key(task.id@),
    ensures
        distinct(tasks.push(task)),
        by_id(tasks.push(task)) == by_id(tasks).insert(task.id@, task@),
{
    let after = tasks.push(task);
    lemma_by_id(tasks);
    assert(distinct(after));
    lemma_by_id(after);
    assert forall|id: Seq<char>| #![auto]
        by_id(after).contains_key(id) == by_id(tasks).insert(task.id@, task@).contains_key(
            id,
        ) by {
        if by_id(after).contains_key(id) {
            let j = choose|j: int| is_place(after, id, j);
            if j < tasks.len() {
                assert(is_place(tasks, id, j));
            }
        }
        if by_id(tasks).contains_key(id) {
            let j = choose|j: int| is_place(tasks, id, j);
            assert(is_place(after, id, j));
        }
        if id == task.id@ {
            assert(is_place(after, id, tasks.len() as int));
        }
    }
    assert forall|id: Seq<char>| by_id(after).contains_key(id) implies #[trigger] by_id(after)[id]
        == by_id(tasks).insert(task.id@, task@)[id] by {
        let j = choose|j: int| is_place(after, id, j);
        assert(after[j].id@ == id);
        if j < tasks.len() {
            assert(tasks[j].id@ == id);
        }
    }
    assert(by_id(after) =~= by_id(tasks).insert(task.id@, task@));
}

impl View for InMemoryTaskStore {
    type V = Map<Seq<char>, TaskView>;

    closed spec fn view(&self) -> Map<Seq<char>, TaskView> {
        by_id(self.tasks@)
    }
}

impl InMemoryTaskStore {
    /// Whether the store holds each task once.
    pub closed spec fn holds_each_once(self) -> bool {
        distinct(self.tasks@)
    }

    /// What holds of a store at all times.
    pub open spec fn wf(self) -> bool {
        self.holds_each_once() && model::is_valid(self@)
    }

    /// A store without tasks.
    pub fn new() -> (result: Self)
        ensures
            result.wf(),
            result@ == Map::<Seq<char>, TaskView>::empty(),
    {
        let result = InMemoryTaskStore { tasks: Vec::new() };
        assert(result@ =~= Map::<Seq<char>, TaskView>::empty());
        result
    }

    /// Takes `task` into the store. It has to be pending, to be allowed some
    /// execution time, and to have an identity that no task of the store has.
    pub fn submit(&mut self, task: Task) -> (result: Result<(), TaskStoreError>)
        requires
            old(self).wf(),
        ensures
            final(self).wf(),
            (match result {
                Ok(()) => Ok(()),
                Err(error) => Err(error@),
            }) == model::submit_reply(old(self)@, task@),
            final(self)@ == model::submitted(old(self)@, task@),
    {
        if let Err(error) = Self::check(&task) {
            return Err(error);
        }
        if Self::position(&self.tasks, &task.id).is_some() {
            return Err(TaskStoreError::DuplicateTask(task.id));
        }
        proof {
            lemma_by_id_push(self.tasks@, task);
        }
        self.tasks.push(task);
        Ok(())
    }

    /// Refuses a task that no store takes: one that is not pending, or that is
    /// allowed no execution time.
    pub fn check(task: &Task) -> (result: Result<(), TaskStoreError>)
        ensures
            match result {
                Ok(()) => model::submit_fault(task@) is None,
                Err(error) => model::submit_fault(task@) == Some(error@),
            },
    {
        match &task.status {
            TaskStatus::Pending { .. } => {},
            _ => {
                return Err(TaskStoreError::InvalidTask("submitted tasks must be pending".into()));
            },
        }
        if task.limits.max_execution_time.is_zero() {
            return Err(
                TaskStoreError::InvalidTask("max execution time must be greater than zero".into()),
            );
        }
        Ok(())
    }

    /// The task `task_id` as it stands, if the store has it.
    pub fn get(&self, task_id: &TaskId) -> (result: Option<Task>)
        requires
            self.wf(),
        ensures
            (match result {
                Some(task) => Some(task@),
                None => None,
            }) == self@.get(task_id@),
    {
        proof {
            lemma_by_id(self.tasks@);
        }
        match Self::position(&self.tasks, task_id) {
            Some(i) => Some(self.tasks[i].clone()),
            None => None,
        }
    }

    /// Hands the most urgent task of the pool `pool_id` that is available at
    /// `now` to the worker `worker_id`, after a look at the time for all tasks.
    pub fn lease_next(
        &mut self,
        pool_id: &PoolId,
        worker_id: &WorkerId,
        ownership_epoch: u64,
        now: SystemTime,
    ) -> (result: Result<Option<Task>, TaskStoreError>)
        requires
            old(self).wf(),
        ensures
            final(self).wf(),
            result matches Ok(given) && model::leases_next(
                old(self)@,
                pool_id@,
                worker_id@,
                ownership_epoch,
                now@,
                final(self)@,
                match given {
                    Some(task) => Some(task@),
                    None => None,
                },
            ),
    {
        Self::recover_expired_locked(&mut self.tasks, now);
        let ghost waiting = self.tasks@;
        proof {
            lemma_by_id(waiting);
        }
        match Self::select_next(&self.tasks, pool_id, now) {
            None => Ok(None),
            Some(i) => {
                let task = &mut self.tasks[i];
                task.attempt.attempts_started = task.attempt.attempts_started.saturating_add(1);
                task.attempt.last_attempt_at = Some(now);
                task.status = TaskStatus::Leased(
                    Lease {
                        owner_id: LeaseOwnerId(worker_id.0.clone()),
                        ownership_epoch,
                        leased_at: now,
                        expires_at: Self::lease_expiry(task, now),
                    },
                );
                let given = task.clone();
                proof {
                    lemma_by_id_update(waiting, i as int, self.tasks@[i as int]);
                    assert(self.tasks@ =~= waiting.update(i as int, self.tasks@[i as int]));
                }
                Ok(Some(given))
            },
        }
    }

    /// Extends the lease of the task `task_id` from `now` on, if `worker_id`
    /// holds it.
    pub fn renew(
        &mut self,
        task_id: &TaskId,
        worker_id: &WorkerId,
        ownership_epoch: u64,
        now: SystemTime,
    ) -> (result: Result<Task, TaskStoreError>)
        requires
            old(self).wf(),
        ensures
            final(self).wf(),
            reply_view(result) == model::holder_reply(
                old(self)@,
                task_id@,
                worker_id@,
                ownership_epoch,
                now@,
                |task: TaskView| task.renewed(now@),
            ),
            final(self)@ == model::settled(old(self)@, task_id@, reply_view(result)),
    {
        let ghost before = self.tasks@;
        let result = match Self::task_mut(&mut self.tasks, task_id) {
            Err(error) => Err(error),
            Ok(task) => match Self::active_lease(task, worker_id, ownership_epoch, now) {
                Err(error) => Err(error),
                Ok(lease) => {
                    task.status = TaskStatus::Leased(
                        Lease { expires_at: Self::lease_expiry(task, now), ..lease },
                    );
                    Ok(task.clone())
                },
            },
        };
        proof {
            lemma_settled(before, self.tasks@, task_id@, reply_view(result));
        }
        result
    }

    /// Records at `now` that the task `task_id` was done, if `worker_id` holds its
    /// lease.
    pub fn complete(
        &mut self,
        task_id: &TaskId,
        worker_id: &WorkerId,
        ownership_epoch: u64,
        now: SystemTime,
    ) -> (result: Result<Task, TaskStoreError>)
        requires
            old(self).wf(),
        ensures
            final(self).wf(),
            reply_view(result) == model::holder_reply(
                old(self)@,
                task_id@,
                worker_id@,
                ownership_epoch,
                now@,
                |task: TaskView| task.completed(now@),
            ),
            final(self)@ == model::settled(old(self)@, task_id@, reply_view(result)),
    {
        let ghost before = self.tasks@;
        let result = match Self::task_mut(&mut self.tasks, task_id) {
            Err(error) => Err(error),
            Ok(task) => match Self::active_lease(task, worker_id, ownership_epoch, now) {
                Err(error) => Err(error),
                Ok(_) => {
                    task.status = TaskStatus::Completed { completed_at: now };
                    Ok(task.clone())
                },
            },
        };
        proof {
            lemma_settled(before, self.tasks@, task_id@, reply_view(result));
        }
        result
    }

    /// Records at `now` that an attempt at the task `task_id` failed, if
    /// `worker_id` holds its lease: the task waits for another attempt, or is
    /// given up with `message`.
    pub fn retry<M: Into<String>>(
        &mut self,
        task_id: &TaskId,
        worker_id: &WorkerId,
        ownership_epoch: u64,
        now: SystemTime,
        message: M,
    ) -> (result: Result<Task, TaskStoreError>)
        requires
            old(self).wf(),
        ensures
            final(self).wf(),
            match result {
                Ok(_) => exists|text: String| #[trigger]
                    call_ensures(<M as Into<String>>::into, (message,), text) && reply_view(result)
                        == model::holder_reply(
                        old(self)@,
                        task_id@,
                        worker_id@,
                        ownership_epoch,
                        now@,
                        |task: TaskView| task.retried(now@, text@),
                    ),
                Err(_) => reply_view(result) == model::holder_reply(
                    old(self)@,
                    task_id@,
                    worker_id@,
                    ownership_epoch,
                    now@,
                    |task: TaskView| task,
                ),
            },
            final(self)@ == model::settled(old(self)@, task_id@, reply_view(result)),
    {
        let ghost before = self.tasks@;
        let result = match Self::task_mut(&mut self.tasks, task_id) {
            Err(error) => Err(error),
            Ok(task) => match Self::active_lease(task, worker_id, ownership_epoch, now) {
                Err(error) => Err(error),
                Ok(_) => {
                    let text: String = message.into();
                    Self::retry_or_fail(task, now, text);
                    Ok(task.clone())
                },
            },
        };
        proof {
            lemma_settled(before, self.tasks@, task_id@, reply_view(result));
        }
        result
    }

    /// Gives up the task `task_id` at `now` with `message`, if `worker_id` holds its
    /// lease.
    pub fn fail<M: Into<String>>(
        &mut self,
        task_id: &TaskId,
        worker_id: &WorkerId,
        ownership_epoch: u64,
        now: SystemTime,
        message: M,
    ) -> (result: Result<Task, TaskStoreError>)
        requires
            old(self).wf(),
        ensures
            final(self).wf(),
            match result {
                Ok(_) => exists|text: String| #[trigger]
                    call_ensures(<M as Into<String>>::into, (message,), text) && reply_view(result)
                        == model::holder_reply(
                        old(self)@,
                        task_id@,
                        worker_id@,
                        ownership_epoch,
                        now@,
                        |task: TaskView| task.failed(now@, text@),
                    ),
                Err(_) => reply_view(result) == model::holder_reply(
                    old(self)@,
                    task_id@,
                    worker_id@,
                    ownership_epoch,
                    now@,
                    |task: TaskView| task,
                ),
            },
            final(self)@ == model::settled(old(self)@, task_id@, reply_view(result)),
    {
        let ghost before = self.tasks@;
        let result = match Self::task_mut(&mut self.tasks, task_id) {
            Err(error) => Err(error),
            Ok(task) => match Self::active_lease(task, worker_id, ownership_epoch, now) {
                Err(error) => Err(error),
                Ok(_) => {
                    let text: String = message.into();
                    task.status = TaskStatus::Failed { failed_at: now, message: text };
                    Ok(task.clone())
                },
            },
        };
        proof {
            lemma_settled(before, self.tasks@, task_id@, reply_view(result));
        }
        result
    }

    /// Looks at the time for all tasks, and gives back those that had run out
    /// of it.
    pub fn recover_expired(&mut self, now: SystemTime) -> (result: Result<
        Vec<Task>,
        TaskStoreError,
    >)
        requires
            old(self).wf(),
        ensures
            final(self).wf(),
            final(self)@ == model::recovered(old(self)@, now@),
            result matches Ok(changed) && model::lists_changes(
                old(self)@,
                now@,
                changed@.map_values(|task: Task| task@),
            ),
    {
        Ok(Self::recover_expired_locked(&mut self.tasks, now))
    }

    /// The place of the task `task_id`.
    fn position(tasks: &Vec<Task>, task_id: &TaskId) -> (result: Option<usize>)
        requires
            distinct(tasks@),
        ensures
            result is Some == by_id(tasks@).contains_key(task_id@),
            result matches Some(i) ==> is_place(tasks@, task_id@, i as int),
    {
        let mut i: usize = 0;
        while i < tasks.len()
            invariant
                i <= tasks.len(),
                forall|j: int| 0 <= j < i ==> !is_place(tasks@, task_id@, j),
            decreases tasks.len() - i,
        {
            if tasks[i].id.0 == task_id.0 {
                proof {
                    assert(is_place(tasks@, task_id@, i as int));
                }
                return Some(i);
            }
            i = i + 1;
        }
        None
    }

    /// The task `task_id`, to be changed in place.
    fn task_mut<'a>(tasks: &'a mut Vec<Task>, task_id: &TaskId) -> (result: Result<
        &'a mut Task,
        TaskStoreError,
    >)
        requires
            distinct(old(tasks)@),
        ensures
            match result {
                Ok(task) => exists|i: int|
                    {
                        &&& #[trigger] is_place(old(tasks)@, task_id@, i)
                        &&& *task == old(tasks)@[i]
                        &&& final(tasks)@ == old(tasks)@.update(i, *final(task))
                    },
                Err(error) => {
                    &&& error@ == StoreErrorView::TaskNotFound(task_id@)
                    &&& !by_id(old(tasks)@).contains_key(task_id@)
                    &&& final(tasks)@ == old(tasks)@
                },
            },
    {
        match Self::position(tasks, task_id) {
            Some(i) => Ok(&mut tasks[i]),
            None => Err(TaskStoreError::TaskNotFound(task_id.clone())),
        }
    }

    /// The lease of `task`, if `worker_id` holds it under `ownership_epoch` and
    /// it has not ended by `now`.
    fn active_lease(
        task: &Task,
        worker_id: &WorkerId,
        ownership_epoch: u64,
        now: SystemTime,
    ) -> (result: Result<Lease, TaskStoreError>)
        ensures
            match result {
                Ok(lease) => {
                    &&& task@.lease_fault(worker_id@, ownership_epoch, now@) is None
                    &&& task.status matches TaskStatus::Leased(current) && lease@ == current@
                },
                Err(error) => task@.lease_fault(worker_id@, ownership_epoch, now@) == Some(error@),
            },
    {
        match &task.status {
            TaskStatus::Leased(lease) => {
                if lease.owner_id.0 != worker_id.0 || lease.ownership_epoch != ownership_epoch {
                    Err(
                        TaskStoreError::InvalidLease(
                            "lease belongs to another worker or epoch".into(),
                        ),
                    )
                } else if !now.is_before(&lease.expires_at) || !now.is_before(
                    &task.limits.deadline,
                ) {
                    Err(TaskStoreError::LeaseExpired)
                } else {
                    Ok(lease.clone())
                }
            },
            _ => Err(TaskStoreError::InvalidLease("task is not leased".into())),
        }
    }

    /// Whether a worker of the pool `pool_id` may take `task` at `now`.
    fn is_available(task: &Task, pool_id: &PoolId, now: SystemTime) -> (result: bool)
        ensures
            result == task@.is_available(pool_id@, now@),
    {
        task.pool_id.0 == pool_id.0 && now.is_before(&task.limits.deadline) && match &task.status {
            TaskStatus::Pending { expires_at } => now.is_before(expires_at),
            _ => false,
        }
    }

    /// Whether `task` has run out of the time it had where it stands.
    fn is_expired(task: &Task, now: SystemTime) -> (result: bool)
        ensures
            result == task@.is_expired(now@),
    {
        match &task.status {
            TaskStatus::Pending { expires_at } => !now.is_before(expires_at) || !now.is_before(
                &task.limits.deadline,
            ),
            TaskStatus::Leased(lease) => !now.is_before(&lease.expires_at) || !now.is_before(
                &task.limits.deadline,
            ),
            TaskStatus::Completed { .. } | TaskStatus::Failed { .. } => false,
        }
    }

    /// Looks at the time for `tasks`, and gives back those that had run out of
    /// it.
    fn recover_expired_locked(tasks: &mut Vec<Task>, now: SystemTime) -> (changed: Vec<Task>)
        requires
            distinct(old(tasks)@),
        ensures
            distinct(final(tasks)@),
            by_id(final(tasks)@) == model::recovered(by_id(old(tasks)@), now@),
            model::lists_changes(
                by_id(old(tasks)@),
                now@,
                changed@.map_values(|task: Task| task@),
            ),
    {
        let ghost before = tasks@;
        let mut changed: Vec<Task> = Vec::new();
        let ghost mut places: Seq<int> = Seq::empty();
        let mut i: usize = 0;
        while i < tasks.len()
            invariant
                i <= tasks.len(),
                recovered_up_to(before, tasks@, i as int, now@),
                changes_at(before, now@, i as int, changed@, places),
            decreases tasks.len() - i,
        {
            let ghost earlier = places;
            let task = &mut tasks[i];
            if Self::is_expired(task, now) {
                match &task.status {
                    TaskStatus::Leased(_) => {
                        Self::retry_or_fail(task, now, "lease expired".into());
                    },
                    _ => {
                        task.status = TaskStatus::Failed {
                            failed_at: now,
                            message: "task expired before it was leased".into(),
                        };
                    },
                }
                changed.push(task.clone());
                proof {
                    places = places.push(i as int);
                }
            }
            proof {
                assert forall|j: int| 0 <= j <= i && (#[trigger] before[j])@.is_expired(
                    now@,
                ) implies places.contains(j) by {
                    if j < i {
                        assert(earlier.contains(j));
                        let k = choose|k: int| 0 <= k < earlier.len() && earlier[k] == j;
                        assert(places[k] == j);
                    } else {
                        assert(places[earlier.len() as int] == j);
                    }
                }
            }
            i = i + 1;
        }
        proof {
            lemma_recovered(before, tasks@, now@);
            lemma_lists_changes(before, now@, changed@, places);
        }
        changed
    }

    /// Sends `task` back to wait for another attempt, or gives it up with
    /// `message`.
    fn retry_or_fail(task: &mut Task, now: SystemTime, message: String)
        ensures
            final(task)@ == old(task)@.retried(now@, message@),
    {
        if !now.is_before(&task.limits.deadline) || task.retry.retry_count
            >= task.retry.max_retries {
            task.status = TaskStatus::Failed { failed_at: now, message };
        } else {
            task.retry.retry_count = task.retry.retry_count.saturating_add(1);
            task.status = TaskStatus::Pending { expires_at: task.limits.deadline };
        }
    }

    /// Whether `left` is handed out before `right`.
    fn goes_before(left: &Task, right: &Task) -> (result: bool)
        ensures
            result == left@.goes_before(right@),
    {
        if left.priority != right.priority {
            left.priority > right.priority
        } else if left.created_at.is_before(&right.created_at) {
            true
        } else if right.created_at.is_before(&left.created_at) {
            false
        } else {
            text::is_before(left.id.0.as_str(), right.id.0.as_str())
        }
    }

    /// The place of the task that the next worker of the pool `pool_id` gets.
    fn select_next(tasks: &Vec<Task>, pool_id: &PoolId, now: SystemTime) -> (result: Option<usize>)
        requires
            distinct(tasks@),
        ensures
            match result {
                Some(i) => i < tasks@.len() && model::is_next(
                    by_id(tasks@),
                    pool_id@,
                    now@,
                    tasks@[i as int].id@,
                ),
                None => forall|id: Seq<char>| #[trigger]
                    by_id(tasks@).contains_key(id) ==> !by_id(tasks@)[id].is_available(
                        pool_id@,
                        now@,
                    ),
            },
    {
        let mut best: Option<usize> = None;
        let mut i: usize = 0;
        while i < tasks.len()
            invariant
                i <= tasks.len(),
                distinct(tasks@),
                is_best(tasks@, pool_id@, now@, i as int, best),
            decreases tasks.len() - i,
        {
            if Self::is_available(&tasks[i], pool_id, now) {
                let sooner = match best {
                    None => true,
                    Some(b) => Self::goes_before(&tasks[i], &tasks[b]),
                };
                proof {
                    lemma_is_best(tasks@, pool_id@, now@, i as int, best);
                }
                if sooner {
                    best = Some(i);
                }
            }
            i = i + 1;
        }
        proof {
            lemma_by_id(tasks@);
            assert forall|id: Seq<char>| #[trigger] by_id(tasks@).contains_key(id) implies exists|
                j: int,
            | is_place(tasks@, id, j) && by_id(tasks@)[id] == (#[trigger] tasks@[j])@ by {
                let j = choose|j: int| is_place(tasks@, id, j);
                assert(tasks@[j].id@ == id);
            }
        }
        best
    }

    /// When a lease of `task` that begins at `now` ends.
    fn lease_expiry(task: &Task, now: SystemTime) -> (result: SystemTime)
        ensures
            result@ == task@.lease_expiry(now@),
    {
        now.add_up_to(task.limits.max_execution_time, task.limits.deadline)
    }
}

impl Default for InMemoryTaskStore {
    fn default() -> (result: Self)
        ensures
            result.wf(),
            result@ == Map::<Seq<char>, TaskView>::empty(),
    {
        Self::new()
    }
}

/// A store in which one task took the place of another with the same identity,
/// or none did, is settled.
proof fn lemma_settled(
    before: Seq<Task>,
    after: Seq<Task>,
    id: Seq<char>,
    reply: Result<TaskView, StoreErrorView>,
)
    requires
        distinct(before),
        match reply {
            Ok(task) => exists|i: int|
                {
                    &&& #[trigger] is_place(before, id, i)
                    &&& after == before.update(i, after[i])
                    &&& after[i]@ == task
                    &&& task.id == id
                },
            Err(_) => after =~= before,
        },
    ensures
        distinct(after),
        by_id(after) == model::settled(by_id(before), id, reply),
{
    if let Ok(task) = reply {
        let i = choose|i: int|
            {
                &&& #[trigger] is_place(before, id, i)
                &&& after == before.update(i, after[i])
                &&& after[i]@ == task
                &&& task.id == id
            };
        lemma_by_id_update(before, i, after[i]);
    }
}

/// Whether `best` is the place of the task that goes before all others among
/// the available ones before the place `n`.
spec fn is_best(
    tasks: Seq<Task>,
    pool_id: Seq<char>,
    now: int,
    n: int,
    best: Option<usize>,
) -> bool {
    match best {
        None => forall|j: int|
            0 <= j < n ==> !(#[trigger] tasks[j])@.is_available(pool_id, now),
        Some(b) => {
            &&& 0 <= b < n
            &&& tasks[b as int]@.is_available(pool_id, now)
            &&& forall|j: int|
                0 <= j < n && j != b && (#[trigger] tasks[j])@.is_available(pool_id, now)
                    ==> tasks[b as int]@.goes_before(tasks[j]@)
        },
    }
}

/// The next available task either goes before the best one so far, and then
/// before all the others, or after it.
proof fn lemma_is_best(
    tasks: Seq<Task>,
    pool_id: Seq<char>,
    now: int,
    n: int,
    best: Option<usize>,
)
    requires
        distinct(tasks),
        0 <= n < tasks.len(),
        is_best(tasks, pool_id, now, n, best),
    ensures
        best matches Some(b) ==> {
            &&& tasks[n]@.goes_before(tasks[b as int]@) ==> forall|j: int|
                0 <= j < n && (#[trigger] tasks[j])@.is_available(pool_id, now)
                    ==> tasks[n]@.goes_before(tasks[j]@)
            &&& !tasks[n]@.goes_before(tasks[b as int]@) ==> tasks[b as int]@.goes_before(
                tasks[n]@,
            )
        },
{
    if let Some(b) = best {
        assert(tasks[b as int].id@ != tasks[n].id@);
        model::goes_before_is_total(tasks[n]@, tasks[b as int]@);
        if tasks[n]@.goes_before(tasks[b as int]@) {
            assert forall|j: int|
                0 <= j < n && (#[trigger] tasks[j])@.is_available(pool_id, now) implies tasks[n]@.goes_before(
                tasks[j]@,
            ) by {
                if j != b {
                    model::goes_before_is_transitive(tasks[n]@, tasks[b as int]@, tasks[j]@);
                }
            }
        }
    }
}

/// Whether the tasks before the place `n` were recovered, and those from it on
/// are still as they were.
spec fn recovered_up_to(before: Seq<Task>, after: Seq<Task>, n: int, now: int) -> bool {
    &&& after.len() == before.len()
    &&& forall|j: int|
        #![trigger after[j]]
        #![trigger before[j]]
        0 <= j < before.len() ==> if j < n {
            after[j]@ == before[j]@.recovered(now)
        } else {
            after[j] == before[j]
        }
}

/// Whether `changed` is what became of the tasks at `places`, which are the
/// places before `n` of the tasks that had run out of time.
spec fn changes_at(
    before: Seq<Task>,
    now: int,
    n: int,
    changed: Seq<Task>,
    places: Seq<int>,
) -> bool {
    &&& places.len() == changed.len()
    &&& forall|k: int|
        0 <= k < places.len() ==> {
            &&& 0 <= #[trigger] places[k] < n
            &&& places[k] < before.len()
            &&& before[places[k]]@.is_expired(now)
            &&& changed[k]@ == before[places[k]]@.recovered(now)
        }
    &&& forall|k: int, l: int|
        0 <= k < l < places.len() ==> #[trigger] places[k] < #[trigger] places[l]
    &&& forall|j: int|
        0 <= j < n && j < before.len() && (#[trigger] before[j])@.is_expired(now)
            ==> places.contains(j)
}

proof fn lemma_recovered(before: Seq<Task>, after: Seq<Task>, now: int)
    requires
        distinct(before),
        recovered_up_to(before, after, before.len() as int, now),
    ensures
        distinct(after),
        by_id(after) == model::recovered(by_id(before), now),
{
    assert forall|j: int| 0 <= j < before.len() implies (#[trigger] after[j]).id@
        == before[j].id@ by {
        assert(after[j]@.id == before[j]@.id);
    }
    assert(distinct(after)) by {
        assert forall|i: int, j: int| 0 <= i < j < after.len() implies #[trigger] after[i].id@
            != #[trigger] after[j].id@ by {
            assert(before[i].id@ != before[j].id@);
        }
    }
    lemma_by_id(before);
    lemma_by_id(after);
    assert forall|id: Seq<char>| #![auto]
        by_id(after).contains_key(id) == model::recovered(by_id(before), now).contains_key(id) by {
        if by_id(after).contains_key(id) {
            let j = choose|j: int| is_place(after, id, j);
            assert(after[j].id@ == id);
            assert(is_place(before, id, j));
        }
        if by_id(before).contains_key(id) {
            let j = choose|j: int| is_place(before, id, j);
            assert(before[j].id@ == id);
            assert(after[j].id@ == id);
            assert(is_place(after, id, j));
        }
    }
    assert forall|id: Seq<char>| by_id(after).contains_key(id) implies #[trigger] by_id(after)[id]
        == model::recovered(by_id(before), now)[id] by {
        let j = choose|j: int| is_place(after, id, j);
        assert(after[j].id@ == id);
        assert(before[j].id@ == id);
    }
    assert(by_id(after) =~= model::recovered(by_id(before), now));
}

proof fn lemma_lists_changes(before: Seq<Task>, now: int, changed: Seq<Task>, places: Seq<int>)
    requires
        distinct(before),
        changes_at(before, now, before.len() as int, changed, places),
    ensures
        model::lists_changes(by_id(before), now, changed.map_values(|task: Task| task@)),
{
    lemma_by_id(before);
    let views = changed.map_values(|task: Task| task@);
    assert forall|k: int| 0 <= k < views.len() implies (#[trigger] views[k]).id
        == before[places[k]].id@ by {
        assert(views[k] == changed[k]@);
    }
    assert forall|id: Seq<char>| #[trigger] by_id(before).contains_key(id) && by_id(
        before,
    )[id].is_expired(now) implies exists|k: int|
        0 <= k < views.len() && (#[trigger] views[k]).id == id by {
        let j = choose|j: int| is_place(before, id, j);
        assert(before[j].id@ == id);
        assert(places.contains(j));
        let k = choose|k: int| 0 <= k < places.len() && places[k] == j;
        assert(views[k].id == id);
    }
    assert forall|k: int, l: int| 0 <= k < l < views.len() implies (#[trigger] views[k]).id != (
    #[trigger] views[l]).id by {
        assert(places[k] < places[l]);
    }
}

} // verus!
