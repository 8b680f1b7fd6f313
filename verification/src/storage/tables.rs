//! What the database of a store in PostgreSQL holds, and how it changes as the
//! plans of the store are carried out with the statements of [`super::sql`]:
//! what holds of it at all times, and what never comes back.
//!
//! What the statements do is read from their text and taken for granted here:
//! the database, not this crate, carries them out. So are its transactions, the
//! locks that `FOR UPDATE` takes, and that the driver cuts times as [`stored`]
//! says. The order in which the database sorts texts is left open.

use serde_json::Value;
use vstd::prelude::*;

use crate::domain::TaskView;
use crate::numbers;
use crate::outside::json;
use crate::time::NANOS_PER_SEC;

use super::postgres;
use super::postgres::{
    ActiveAttempt, ExpiredRow, FinishPlan, LeasePlan, ReadyRow, RecoveryPlan, RenewPlan, TaskInsert,
    TaskState, TransitionPlan,
};
use super::postgres_laws;

verus! {

/// The start of the year 2000, from which the database counts time.
pub open spec fn stored_from() -> int {
    946_684_800 * NANOS_PER_SEC
}

/// The point in time that comes back when `time` was sent to the database: whole
/// microseconds from the start of the year 2000, with the fraction dropped.
pub open spec fn stored(time: int) -> int {
    if time >= stored_from() {
        time - (time - stored_from()) % 1000
    } else {
        time + (stored_from() - time) % 1000
    }
}

/// Storing keeps the order of times, moves a time by less than a microsecond,
/// and does nothing to one that was stored before.
pub proof fn stored_times_stay_in_order(left: int, right: int)
    ensures
        left <= right ==> stored(left) <= stored(right),
        left - 1000 < stored(left) < left + 1000,
        stored(stored(left)) == stored(left),
{
}

/// A task in the database.
pub struct TaskRow {
    pub workflow_id: Seq<char>,
    pub activity_type: Seq<char>,
    pub input: Seq<u8>,
    pub state: TaskState,
    pub pool_id: Seq<char>,
    pub priority: i32,
    pub available_at: int,
    pub execution_timeout_ms: i64,
    pub retry_policy: Value,
    pub current_attempt: i32,
    pub created_at: int,
    pub deadline: int,
}

impl TaskRow {
    /// Whether nothing more happens to the task.
    pub open spec fn is_ended(self) -> bool {
        self.state == TaskState::Completed || self.state == TaskState::Failed
    }

    /// The task once `plan` was carried out for it.
    pub open spec fn transitioned(self, plan: TransitionPlan) -> TaskRow {
        TaskRow {
            state: plan.state,
            available_at: stored(plan.available_at@),
            retry_policy: plan.retry_policy,
            ..self
        }
    }

    /// The task once those that wait past their deadline were given up at the
    /// stored time `now`.
    pub open spec fn given_up(self, now: int) -> TaskRow {
        if self.state == TaskState::Ready && self.deadline <= now {
            TaskRow { state: TaskState::Failed, ..self }
        } else {
            self
        }
    }
}

/// An attempt in the database. It is under way as long as it has no outcome.
pub struct AttemptRow {
    pub task_id: Seq<char>,
    pub attempt_number: i32,
    pub worker_id: Seq<char>,
    pub ownership_epoch: i64,
    pub lease_expiry: int,
    pub outcome: Option<TaskState>,
}

impl AttemptRow {
    /// Whether the attempt is under way at the task `task_id`.
    pub open spec fn is_under_way_at(self, task_id: Seq<char>) -> bool {
        self.outcome is None && self.task_id == task_id
    }

    /// Whether the attempt is the one that is under way at the task `task_id`
    /// for the worker `worker_id` under the stored epoch `ownership_epoch`.
    pub open spec fn is_held_by(
        self,
        task_id: Seq<char>,
        worker_id: Seq<char>,
        ownership_epoch: int,
    ) -> bool {
        self.is_under_way_at(task_id) && self.worker_id == worker_id && self.ownership_epoch
            == ownership_epoch
    }

    /// The epoch under which the attempt was granted.
    pub open spec fn epoch(self) -> int {
        numbers::unsigned_64(self.ownership_epoch)
    }
}

/// What `plans` have for the task `id`, if they have anything.
pub open spec fn transition_of(plans: Seq<TransitionPlan>, id: Seq<char>) -> Option<
    TransitionPlan,
> {
    if exists|i: int| is_for(plans, id, i) {
        Some(plans[choose|i: int| is_for(plans, id, i)])
    } else {
        None
    }
}

/// Whether the plan at the place `i` is for the task `id`.
pub open spec fn is_for(plans: Seq<TransitionPlan>, id: Seq<char>, i: int) -> bool {
    0 <= i < plans.len() && plans[i].task_id@ == id
}

/// The database: the tenant of each workflow, the tasks and the attempts, each
/// by identity, and whether one text comes before another when it sorts them.
pub struct Tables {
    pub workflows: Map<Seq<char>, Seq<char>>,
    pub collation: spec_fn(Seq<char>, Seq<char>) -> bool,
    pub tasks: Map<Seq<char>, TaskRow>,
    pub attempts: Map<Seq<char>, AttemptRow>,
}

impl Tables {
    /// What holds of the database at all times: an attempt that is under way is
    /// one at a leased task, with a lease that ends by the deadline, no two of
    /// them are at the same task, and a leased task has one. Deadlines are times
    /// that were stored, and every attempt is one at a task that is there.
    pub open spec fn is_valid(self) -> bool {
        &&& forall|a: Seq<char>|
            #![trigger self.attempts[a]]
            self.attempts.contains_key(a) && self.attempts[a].outcome is None ==> {
                &&& self.tasks.contains_key(self.attempts[a].task_id)
                &&& self.tasks[self.attempts[a].task_id].state == TaskState::Leased
                &&& self.attempts[a].lease_expiry <= self.tasks[self.attempts[a].task_id].deadline
            }
        &&& forall|a: Seq<char>, b: Seq<char>|
            #![trigger self.attempts[a], self.attempts[b]]
            self.attempts.contains_key(a) && self.attempts.contains_key(b)
                && self.attempts[a].outcome is None && self.attempts[b].outcome is None
                && self.attempts[a].task_id == self.attempts[b].task_id ==> a == b
        &&& forall|id: Seq<char>| #[trigger]
            self.tasks.contains_key(id) && self.tasks[id].state == TaskState::Leased ==> exists|
                a: Seq<char>,
            | #[trigger]
                self.attempts.contains_key(a) && self.attempts[a].is_under_way_at(id)
        &&& forall|id: Seq<char>| #[trigger]
            self.tasks.contains_key(id) ==> stored(self.tasks[id].deadline)
                == self.tasks[id].deadline
        &&& forall|a: Seq<char>| #[trigger]
            self.attempts.contains_key(a) ==> self.tasks.contains_key(self.attempts[a].task_id)
    }

    /// Whether the attempt `a` is found for the worker `worker_id` at the task
    /// `task_id`, and is what `found` says.
    pub open spec fn finds(
        self,
        a: Seq<char>,
        task_id: Seq<char>,
        worker_id: Seq<char>,
        ownership_epoch: int,
        found: ActiveAttempt,
    ) -> bool {
        &&& self.attempts.contains_key(a)
        &&& self.attempts[a].is_held_by(task_id, worker_id, ownership_epoch)
        &&& self.shows(a, task_id, found)
    }

    /// Whether `found` is what a look at the task `task_id` and the attempt `a`
    /// under way at it shows.
    pub open spec fn shows(self, a: Seq<char>, task_id: Seq<char>, found: ActiveAttempt) -> bool {
        &&& self.attempts.contains_key(a)
        &&& self.attempts[a].is_under_way_at(task_id)
        &&& self.tasks.contains_key(task_id)
        &&& self.tasks[task_id].state == TaskState::Leased
        &&& found.deadline@ == self.tasks[task_id].deadline
        &&& found.lease_expiry@ == self.attempts[a].lease_expiry
        &&& found.execution_timeout_ms == self.tasks[task_id].execution_timeout_ms
        &&& json::members(found.retry_policy) == json::members(self.tasks[task_id].retry_policy)
    }

    /// Whether a worker of the pool `pool_id` may have the task `id` at `now`, by
    /// the clock of the database.
    pub open spec fn is_waiting(self, id: Seq<char>, pool_id: Seq<char>, now: int) -> bool {
        &&& self.tasks.contains_key(id)
        &&& self.tasks[id].pool_id == pool_id
        &&& self.tasks[id].state == TaskState::Ready
        &&& self.tasks[id].available_at <= now < self.tasks[id].deadline
        &&& self.workflows.contains_key(self.tasks[id].workflow_id)
    }

    /// Whether the task `id` is handed out before the task `other`: the higher
    /// priority first, then the older one, then the one whose identity sorts
    /// first.
    pub open spec fn goes_before(self, id: Seq<char>, other: Seq<char>) -> bool {
        if self.tasks[id].priority != self.tasks[other].priority {
            self.tasks[id].priority > self.tasks[other].priority
        } else if self.tasks[id].created_at != self.tasks[other].created_at {
            self.tasks[id].created_at < self.tasks[other].created_at
        } else {
            (self.collation)(id, other)
        }
    }

    /// Whether `id` is the task that a worker of the pool `pool_id` is to have
    /// at `now`, by the clock of the database, while others have locked the
    /// tasks `locked` or their workflows.
    pub open spec fn is_next(
        self,
        id: Seq<char>,
        pool_id: Seq<char>,
        now: int,
        locked: Set<Seq<char>>,
    ) -> bool {
        &&& self.is_waiting(id, pool_id, now)
        &&& !locked.contains(id)
        &&& forall|other: Seq<char>| #[trigger]
            self.is_waiting(other, pool_id, now) && !locked.contains(other) && other != id
                ==> self.goes_before(id, other)
    }

    /// Whether `row` is what a look at a task that waits shows.
    pub open spec fn shows_ready(self, row: ReadyRow) -> bool {
        &&& self.tasks.contains_key(row.id@)
        &&& self.tasks[row.id@].state == TaskState::Ready
        &&& row.workflow_id@ == self.tasks[row.id@].workflow_id
        &&& self.workflows.contains_key(row.workflow_id@)
        &&& row.tenant_id@ == self.workflows[row.workflow_id@]
        &&& row.activity_type@ == self.tasks[row.id@].activity_type
        &&& row.input@ == self.tasks[row.id@].input
        &&& row.pool_id@ == self.tasks[row.id@].pool_id
        &&& row.priority == self.tasks[row.id@].priority
        &&& row.created_at@ == self.tasks[row.id@].created_at
        &&& row.deadline@ == self.tasks[row.id@].deadline
        &&& row.execution_timeout_ms == self.tasks[row.id@].execution_timeout_ms
        &&& json::members(row.retry_policy) == json::members(self.tasks[row.id@].retry_policy)
        &&& row.current_attempt == self.tasks[row.id@].current_attempt
    }

    /// Whether the attempt `a` is under way at a leased task and its lease or
    /// the deadline of the task has passed at the stored time `now`.
    pub open spec fn is_expired(self, a: Seq<char>, now: int) -> bool {
        &&& self.attempts.contains_key(a)
        &&& self.attempts[a].outcome is None
        &&& self.tasks.contains_key(self.attempts[a].task_id)
        &&& self.tasks[self.attempts[a].task_id].state == TaskState::Leased
        &&& self.attempts[a].lease_expiry <= now || self.tasks[self.attempts[a].task_id].deadline
            <= now
    }

    /// Whether the task `id` is leased and its lease or deadline has passed at
    /// the stored time `now`.
    pub open spec fn has_expired(self, id: Seq<char>, now: int) -> bool {
        exists|a: Seq<char>| #[trigger]
            self.is_expired(a, now) && self.attempts[a].task_id == id
    }

    /// Whether `rows` list, each once, the attempts that have run out of time at
    /// the stored time `now`, but for those at the tasks `locked`, where others
    /// have locked the task or the attempt; `found` are the identities of the
    /// attempts.
    pub open spec fn lists_expired(
        self,
        now: int,
        locked: Set<Seq<char>>,
        found: Seq<Seq<char>>,
        rows: Seq<ExpiredRow>,
    ) -> bool {
        &&& found.len() == rows.len()
        &&& forall|i: int|
            0 <= i < found.len() ==> {
                &&& self.is_expired(#[trigger] found[i], now)
                &&& !locked.contains(self.attempts[found[i]].task_id)
                &&& rows[i].task_id@ == self.attempts[found[i]].task_id
                &&& self.shows(found[i], rows[i].task_id@, rows[i].active)
            }
        &&& forall|i: int, j: int|
            0 <= i < j < found.len() ==> #[trigger] found[i] != #[trigger] found[j]
        &&& forall|a: Seq<char>| #[trigger]
            self.is_expired(a, now) && !locked.contains(self.attempts[a].task_id)
                ==> found.contains(a)
    }

    /// Whether no attempt is found for the worker `worker_id` at the task
    /// `task_id`.
    pub open spec fn finds_none(
        self,
        task_id: Seq<char>,
        worker_id: Seq<char>,
        ownership_epoch: int,
    ) -> bool {
        forall|a: Seq<char>| #[trigger]
            self.attempts.contains_key(a) ==> !self.attempts[a].is_held_by(
                task_id,
                worker_id,
                ownership_epoch,
            )
    }

    /// The database once `added` was added.
    pub open spec fn with_task(self, added: TaskInsert) -> Tables {
        let task = TaskRow {
            workflow_id: added.workflow_id@,
            activity_type: added.activity_type@,
            input: added.input@,
            state: added.state,
            pool_id: added.pool_id@,
            priority: added.priority,
            available_at: stored(added.available_at@),
            execution_timeout_ms: added.execution_timeout_ms,
            retry_policy: added.retry_policy,
            current_attempt: added.current_attempt,
            created_at: stored(added.created_at@),
            deadline: stored(added.deadline@),
        };
        Tables { tasks: self.tasks.insert(added.id@, task), ..self }
    }

    /// The database once `plan` was carried out.
    pub open spec fn leased(self, plan: LeasePlan) -> Tables {
        let task = TaskRow {
            state: TaskState::Leased,
            current_attempt: plan.attempt.attempt_number,
            ..self.tasks[plan.task_id@]
        };
        let attempt = AttemptRow {
            task_id: plan.attempt.task_id@,
            attempt_number: plan.attempt.attempt_number,
            worker_id: plan.attempt.worker_id@,
            ownership_epoch: plan.attempt.ownership_epoch,
            lease_expiry: stored(plan.attempt.lease_expiry@),
            outcome: None,
        };
        Tables {
            tasks: self.tasks.insert(plan.task_id@, task),
            attempts: self.attempts.insert(plan.attempt.id@, attempt),
            ..self
        }
    }

    /// The database once `plan` was carried out.
    pub open spec fn renewed(self, plan: RenewPlan) -> Tables {
        Tables {
            attempts: self.attempts.map_values(
                |attempt: AttemptRow|
                    if attempt.is_held_by(
                        plan.task_id@,
                        plan.worker_id@,
                        plan.ownership_epoch as int,
                    ) {
                        AttemptRow { lease_expiry: stored(plan.lease_expiry@), ..attempt }
                    } else {
                        attempt
                    },
            ),
            ..self
        }
    }

    /// The database once `plan` was carried out.
    pub open spec fn finished(self, plan: FinishPlan) -> Tables {
        Tables {
            tasks: self.tasks.insert(
                plan.task_id@,
                TaskRow { state: plan.state, ..self.tasks[plan.task_id@] },
            ),
            attempts: self.attempts.map_values(
                |attempt: AttemptRow|
                    if attempt.is_held_by(
                        plan.task_id@,
                        plan.worker_id@,
                        plan.ownership_epoch as int,
                    ) {
                        AttemptRow { outcome: Some(plan.state), ..attempt }
                    } else {
                        attempt
                    },
            ),
            ..self
        }
    }

    /// The database once `plans` were carried out, of which no two are for the
    /// same task.
    pub open spec fn transitioned(self, plans: Seq<TransitionPlan>) -> Tables {
        Tables {
            tasks: Map::new(
                |id: Seq<char>| self.tasks.contains_key(id),
                |id: Seq<char>|
                    match transition_of(plans, id) {
                        Some(plan) => self.tasks[id].transitioned(plan),
                        None => self.tasks[id],
                    },
            ),
            attempts: self.attempts.map_values(
                |attempt: AttemptRow|
                    match (attempt.outcome, transition_of(plans, attempt.task_id)) {
                        (None, Some(plan)) => AttemptRow { outcome: Some(plan.state), ..attempt },
                        _ => attempt,
                    },
            ),
            ..self
        }
    }

    /// The database once the tasks that wait past their deadline were given up
    /// at the stored time `now`.
    pub open spec fn given_up(self, now: int) -> Tables {
        Tables { tasks: self.tasks.map_values(|task: TaskRow| task.given_up(now)), ..self }
    }
}

/// Something that a store does to its database.
pub enum Change {
    Submit { task: TaskView, added: TaskInsert },
    Lease {
        pool_id: Seq<char>,
        asked_at: int,
        locked: Set<Seq<char>>,
        row: ReadyRow,
        worker_id: Seq<char>,
        ownership_epoch: u64,
        now: int,
        lease: LeasePlan,
    },
    Renew {
        attempt_id: Seq<char>,
        found: ActiveAttempt,
        task_id: Seq<char>,
        worker_id: Seq<char>,
        ownership_epoch: u64,
        now: int,
        renewal: RenewPlan,
    },
    Finish {
        attempt_id: Seq<char>,
        found: ActiveAttempt,
        task_id: Seq<char>,
        worker_id: Seq<char>,
        ownership_epoch: u64,
        now: int,
        state: TaskState,
        error: Option<Seq<char>>,
        ending: FinishPlan,
    },
    Retry {
        attempt_id: Seq<char>,
        found: ActiveAttempt,
        task_id: Seq<char>,
        worker_id: Seq<char>,
        ownership_epoch: u64,
        now: int,
        message: Seq<char>,
        transition: TransitionPlan,
    },
    Recover {
        locked: Set<Seq<char>>,
        attempt_ids: Seq<Seq<char>>,
        rows: Seq<ExpiredRow>,
        now: int,
        recovery: RecoveryPlan,
    },
}

impl Change {
    /// Whether the change comes from the holder of the attempt `attempt`.
    pub open spec fn is_from_holder(self, attempt: AttemptRow) -> bool {
        match self {
            Change::Renew { task_id, worker_id, ownership_epoch, .. }
            | Change::Finish { task_id, worker_id, ownership_epoch, .. }
            | Change::Retry { task_id, worker_id, ownership_epoch, .. } => attempt.is_held_by(
                task_id,
                worker_id,
                numbers::signed_64(ownership_epoch),
            ),
            Change::Submit { .. } | Change::Lease { .. } | Change::Recover { .. } => false,
        }
    }

    /// Whether a lease on the task `task_id` that the change grants has at least
    /// the epoch `epoch`.
    pub open spec fn grants_from_epoch(self, task_id: Seq<char>, epoch: int) -> bool {
        self matches Change::Lease { row, ownership_epoch, .. } ==> (row.id@ == task_id
            ==> ownership_epoch >= epoch)
    }
}

/// Whether `change` turns the database `before` into `after`: what was looked
/// up is what was there, the plans are those that the store makes of it, and
/// they were carried out. Identities that are there already are taken by no new
/// task and no new attempt.
pub open spec fn step(before: Tables, change: Change, after: Tables) -> bool {
    match change {
        Change::Submit { task, added } => {
            &&& postgres::submit_fault(task) is None
            &&& added.is_of(task)
            &&& !before.tasks.contains_key(task.id)
            &&& after == before.with_task(added)
        },
        Change::Lease {
            pool_id,
            asked_at,
            locked,
            row,
            worker_id,
            ownership_epoch,
            now,
            lease,
        } => {
            &&& before.is_next(row.id@, pool_id, asked_at, locked)
            &&& before.shows_ready(row)
            &&& postgres::lease_fault(row) is None
            &&& lease.grants(row, worker_id, ownership_epoch, now)
            &&& lease.refusal is None
            &&& !before.attempts.contains_key(lease.attempt.id@)
            &&& after == before.leased(lease)
        },
        Change::Renew { attempt_id, found, task_id, worker_id, ownership_epoch, now, renewal } => {
            &&& before.finds(
                attempt_id,
                task_id,
                worker_id,
                numbers::signed_64(ownership_epoch),
                found,
            )
            &&& postgres::is_under_way(Some(found), now)
            &&& found.execution_timeout_ms >= 0
            &&& renewal.renews(found, task_id, worker_id, ownership_epoch, now)
            &&& after == before.renewed(renewal)
        },
        Change::Finish {
            attempt_id,
            found,
            task_id,
            worker_id,
            ownership_epoch,
            now,
            state,
            error,
            ending,
        } => {
            &&& before.finds(
                attempt_id,
                task_id,
                worker_id,
                numbers::signed_64(ownership_epoch),
                found,
            )
            &&& postgres::is_under_way(Some(found), now)
            &&& state == TaskState::Completed || state == TaskState::Failed
            &&& ending.finishes(task_id, worker_id, ownership_epoch, now, state, error)
            &&& after == before.finished(ending)
        },
        Change::Retry {
            attempt_id,
            found,
            task_id,
            worker_id,
            ownership_epoch,
            now,
            message,
            transition,
        } => {
            &&& before.finds(
                attempt_id,
                task_id,
                worker_id,
                numbers::signed_64(ownership_epoch),
                found,
            )
            &&& postgres::is_under_way(Some(found), now)
            &&& postgres::retries_of(found.retry_policy) is Some
            &&& transition.follows(found, task_id, now, message)
            &&& after == before.transitioned(seq![transition])
        },
        Change::Recover { locked, attempt_ids, rows, now, recovery } => {
            &&& before.lists_expired(stored(now), locked, attempt_ids, rows)
            &&& recovery.recovers(rows, now)
            &&& recovery.refusal is None
            &&& after == before.transitioned(recovery.transitions@).given_up(stored(now))
        },
    }
}

/// Whether the database went through `states` by `changes`, one after the
/// other.
pub open spec fn is_history(states: Seq<Tables>, changes: Seq<Change>) -> bool {
    &&& states.len() == changes.len() + 1
    &&& forall|i: int|
        0 <= i < changes.len() ==> step(states[i], #[trigger] changes[i], states[i + 1])
}

/// Whether the retries that `after` has made are no fewer than those that
/// `before` has, and those that are allowed are the same.
pub open spec fn retries_move_on(before: Value, after: Value) -> bool {
    match (postgres::retries_of(before), postgres::retries_of(after)) {
        (Some((max_retries, retry_count)), Some((later_max, later_count))) => max_retries
            == later_max && retry_count <= later_count,
        (Some(_), None) => false,
        (None, _) => true,
    }
}

/// Whether `after` is what may become of the task `before`: what was submitted is
/// as it was, its retries and attempts never fall, and one that is ended stays
/// exactly as it is.
pub open spec fn moves_on(before: TaskRow, after: TaskRow) -> bool {
    &&& after == TaskRow {
        state: after.state,
        available_at: after.available_at,
        retry_policy: after.retry_policy,
        current_attempt: after.current_attempt,
        ..before
    }
    &&& retries_move_on(before.retry_policy, after.retry_policy)
    &&& before.current_attempt <= after.current_attempt
    &&& before.is_ended() ==> after == before
}

/// The plans of a retry or of a recovery, each for a task that is leased: the
/// one for the task of an attempt that was found is the one that follows it.
proof fn lemma_transitions(
    before: Tables,
    now: int,
    locked: Set<Seq<char>>,
    attempt_ids: Seq<Seq<char>>,
    rows: Seq<ExpiredRow>,
    read_at: int,
    transitions: Seq<TransitionPlan>,
    message: Seq<char>,
)
    requires
        before.is_valid(),
        before.lists_expired(now, locked, attempt_ids, rows),
        transitions.len() == rows.len(),
        forall|i: int|
            0 <= i < rows.len() ==> {
                &&& postgres::retries_of((#[trigger] rows[i]).active.retry_policy) is Some
                &&& transitions[i].follows(rows[i].active, rows[i].task_id@, read_at, message)
            },
    ensures
        forall|id: Seq<char>| #[trigger]
            transition_of(transitions, id) is Some ==> exists|i: int|
                {
                    &&& 0 <= i < rows.len()
                    &&& #[trigger] rows[i].task_id@ == id
                    &&& transition_of(transitions, id) == Some(transitions[i])
                    &&& before.shows(attempt_ids[i], id, rows[i].active)
                },
        forall|a: Seq<char>| #[trigger]
            before.is_expired(a, now) && !locked.contains(before.attempts[a].task_id)
                ==> transition_of(transitions, before.attempts[a].task_id) is Some,
{
    assert forall|id: Seq<char>| #[trigger] transition_of(transitions, id) is Some implies exists|
        i: int,
    |
        {
            &&& 0 <= i < rows.len()
            &&& #[trigger] rows[i].task_id@ == id
            &&& transition_of(transitions, id) == Some(transitions[i])
            &&& before.shows(attempt_ids[i], id, rows[i].active)
        } by {
        let i = choose|i: int| is_for(transitions, id, i);
        assert(is_for(transitions, id, i));
        assert(rows[i].task_id@ == id);
        assert(before.is_expired(attempt_ids[i], now));
    }
    assert forall|a: Seq<char>| #[trigger]
        before.is_expired(a, now) && !locked.contains(
            before.attempts[a].task_id,
        ) implies transition_of(transitions, before.attempts[a].task_id) is Some by {
        assert(attempt_ids.contains(a));
        let i = choose|i: int| 0 <= i < attempt_ids.len() && attempt_ids[i] == a;
        assert(rows[i].task_id@ == before.attempts[a].task_id);
        assert(is_for(transitions, before.attempts[a].task_id, i));
    }
}

/// Of one plan there is only that one.
proof fn lemma_single(plan: TransitionPlan)
    ensures
        forall|id: Seq<char>| #[trigger]
            transition_of(seq![plan], id) == if plan.task_id@ == id {
                Some(plan)
            } else {
                None
            },
{
    assert forall|id: Seq<char>| #[trigger]
        transition_of(seq![plan], id) == if plan.task_id@ == id {
            Some(plan)
        } else {
            None
        } by {
        if plan.task_id@ == id {
            assert(is_for(seq![plan], id, 0));
        }
    }
}

/// Plans that end what is under way at their tasks keep a database valid.
proof fn lemma_transitioned_is_valid(before: Tables, plans: Seq<TransitionPlan>)
    requires
        before.is_valid(),
        forall|id: Seq<char>|
            (#[trigger] transition_of(plans, id)) matches Some(plan) ==> plan.state
                != TaskState::Leased,
    ensures
        before.transitioned(plans).is_valid(),
{
    let after = before.transitioned(plans);
    assert forall|a: Seq<char>|
        #![trigger after.attempts[a]]
        after.attempts.contains_key(a) && after.attempts[a].outcome is None implies {
        &&& before.attempts[a].outcome is None
        &&& after.attempts[a] == before.attempts[a]
        &&& transition_of(plans, after.attempts[a].task_id) is None
    } by {
        assert(before.attempts.contains_key(a));
    }
    assert forall|id: Seq<char>| #[trigger]
        after.tasks.contains_key(id) && after.tasks[id].state == TaskState::Leased implies exists|
        a: Seq<char>,
    | #[trigger] after.attempts.contains_key(a) && after.attempts[a].is_under_way_at(id) by {
        assert(before.tasks.contains_key(id));
        assert(transition_of(plans, id) is None);
        let a = choose|a: Seq<char>| #[trigger]
            before.attempts.contains_key(a) && before.attempts[a].is_under_way_at(id);
        assert(after.attempts.contains_key(a));
    }
    assert forall|id: Seq<char>| #[trigger] after.tasks.contains_key(id) implies stored(
        after.tasks[id].deadline,
    ) == after.tasks[id].deadline by {
        assert(before.tasks.contains_key(id));
    }
}

/// To give up tasks that wait keeps a database valid.
proof fn lemma_given_up_is_valid(before: Tables, now: int)
    requires
        before.is_valid(),
    ensures
        before.given_up(now).is_valid(),
{
    let after = before.given_up(now);
    assert forall|id: Seq<char>| #[trigger]
        after.tasks.contains_key(id) && after.tasks[id].state == TaskState::Leased implies exists|
        a: Seq<char>,
    | #[trigger] after.attempts.contains_key(a) && after.attempts[a].is_under_way_at(id) by {
        assert(before.tasks.contains_key(id));
        let a = choose|a: Seq<char>| #[trigger]
            before.attempts.contains_key(a) && before.attempts[a].is_under_way_at(id);
        assert(after.attempts.contains_key(a));
    }
    assert forall|id: Seq<char>| #[trigger] after.tasks.contains_key(id) implies stored(
        after.tasks[id].deadline,
    ) == after.tasks[id].deadline by {
        assert(before.tasks.contains_key(id));
    }
}

/// Each change keeps what holds of the database at all times: so each task has
/// at most one current lease, and none beyond its deadline.
pub proof fn step_keeps_database_valid(before: Tables, change: Change, after: Tables)
    requires
        before.is_valid(),
        step(before, change, after),
    ensures
        after.is_valid(),
{
    match change {
        Change::Retry { transition, .. } => {
            lemma_single(transition);
            lemma_transitioned_is_valid(before, seq![transition]);
        },
        Change::Recover { locked, attempt_ids, rows, now, recovery } => {
            let transitions = recovery.transitions@;
            lemma_transitions(
                before,
                stored(now),
                locked,
                attempt_ids,
                rows,
                now,
                transitions,
                "lease expired"@,
            );
            lemma_transitioned_is_valid(before, transitions);
            lemma_given_up_is_valid(before.transitioned(transitions), stored(now));
        },
        _ => {
            lemma_other_step_is_valid(before, change, after);
        },
    }
}

/// The changes that end no attempt for a retry keep a database valid.
proof fn lemma_other_step_is_valid(before: Tables, change: Change, after: Tables)
    requires
        before.is_valid(),
        step(before, change, after),
        !(change is Retry),
        !(change is Recover),
    ensures
        after.is_valid(),
{
    match change {
        Change::Submit { added, .. } => {
            stored_times_stay_in_order(added.deadline@, added.deadline@);
        },
        Change::Lease { row, lease, .. } => {
            stored_times_stay_in_order(lease.attempt.lease_expiry@, row.deadline@);
        },
        Change::Renew { found, renewal, .. } => {
            stored_times_stay_in_order(renewal.lease_expiry@, found.deadline@);
        },
        _ => {},
    }
    assert forall|a: Seq<char>|
        #![trigger after.attempts[a]]
        after.attempts.contains_key(a) && after.attempts[a].outcome is None implies {
        &&& after.tasks.contains_key(after.attempts[a].task_id)
        &&& after.tasks[after.attempts[a].task_id].state == TaskState::Leased
        &&& after.attempts[a].lease_expiry <= after.tasks[after.attempts[a].task_id].deadline
    } by {
        if let Change::Finish { attempt_id, .. } = change {
            assert(before.attempts[attempt_id].outcome is None);
        }
        if before.attempts.contains_key(a) {
            assert(before.attempts[a].outcome is None);
        }
    }
    assert forall|a: Seq<char>, b: Seq<char>|
        #![trigger after.attempts[a], after.attempts[b]]
        after.attempts.contains_key(a) && after.attempts.contains_key(b)
            && after.attempts[a].outcome is None && after.attempts[b].outcome is None
            && after.attempts[a].task_id == after.attempts[b].task_id implies a == b by {
        assert(before.attempts.contains_key(a) ==> before.attempts[a].outcome is None);
        assert(before.attempts.contains_key(b) ==> before.attempts[b].outcome is None);
    }
    assert forall|id: Seq<char>| #[trigger]
        after.tasks.contains_key(id) && after.tasks[id].state == TaskState::Leased implies exists|
        a: Seq<char>,
    | #[trigger] after.attempts.contains_key(a) && after.attempts[a].is_under_way_at(id) by {
        if before.tasks.contains_key(id) && before.tasks[id].state == TaskState::Leased {
            let a = choose|a: Seq<char>| #[trigger]
                before.attempts.contains_key(a) && before.attempts[a].is_under_way_at(id);
            assert(after.attempts.contains_key(a));
        } else if let Change::Lease { lease, .. } = change {
            assert(after.attempts.contains_key(lease.attempt.id@));
        }
    }
    assert forall|id: Seq<char>| #[trigger] after.tasks.contains_key(id) implies stored(
        after.tasks[id].deadline,
    ) == after.tasks[id].deadline by {
        assert(before.tasks.contains_key(id) ==> stored(before.tasks[id].deadline)
            == before.tasks[id].deadline);
    }
}

/// Each change leaves every task there and moves it on.
pub proof fn step_moves_tasks_on(
    before: Tables,
    change: Change,
    after: Tables,
    id: Seq<char>,
)
    requires
        before.is_valid(),
        step(before, change, after),
        before.tasks.contains_key(id),
    ensures
        after.tasks.contains_key(id),
        moves_on(before.tasks[id], after.tasks[id]),
{
    match change {
        Change::Retry { found, task_id, now, message, transition, .. } => {
            lemma_single(transition);
            postgres_laws::retry_counts_never_fall(transition, found, task_id, now, message);
        },
        Change::Recover { locked, attempt_ids, rows, now, recovery } => {
            let transitions = recovery.transitions@;
            lemma_transitions(
                before,
                stored(now),
                locked,
                attempt_ids,
                rows,
                now,
                transitions,
                "lease expired"@,
            );
            if transition_of(transitions, id) is Some {
                let i = choose|i: int|
                    {
                        &&& 0 <= i < rows.len()
                        &&& #[trigger] rows[i].task_id@ == id
                        &&& transition_of(transitions, id) == Some(transitions[i])
                        &&& before.shows(attempt_ids[i], id, rows[i].active)
                    };
                postgres_laws::retry_counts_never_fall(
                    transitions[i],
                    rows[i].active,
                    id,
                    now,
                    "lease expired"@,
                );
            }
        },
        _ => {},
    }
}

/// A database that starts out valid stays so.
pub proof fn history_keeps_database_valid(states: Seq<Tables>, changes: Seq<Change>, n: int)
    requires
        is_history(states, changes),
        states[0].is_valid(),
        0 <= n < states.len(),
    ensures
        states[n].is_valid(),
    decreases n,
{
    if n > 0 {
        history_keeps_database_valid(states, changes, n - 1);
        step_keeps_database_valid(states[n - 1], changes[n - 1], states[n]);
    }
}

/// A task that was submitted is never lost: it stays in the database, its
/// deadline and the time it allows stay, its retries and attempts never fall,
/// and once it is done or given up it stays exactly as it is.
pub proof fn submitted_task_is_never_lost(
    states: Seq<Tables>,
    changes: Seq<Change>,
    id: Seq<char>,
    earlier: int,
    later: int,
)
    requires
        is_history(states, changes),
        states[0].is_valid(),
        0 <= earlier <= later < states.len(),
        states[earlier].tasks.contains_key(id),
    ensures
        states[later].tasks.contains_key(id),
        moves_on(states[earlier].tasks[id], states[later].tasks[id]),
    decreases later - earlier,
{
    if earlier < later {
        submitted_task_is_never_lost(states, changes, id, earlier, later - 1);
        history_keeps_database_valid(states, changes, later - 1);
        step_moves_tasks_on(states[later - 1], changes[later - 1], states[later], id);
    }
}

/// The end of a task is committed once: from then on the task stays as it is,
/// and no worker finds an attempt at it to act on, under any epoch.
pub proof fn end_is_committed_once(
    states: Seq<Tables>,
    changes: Seq<Change>,
    id: Seq<char>,
    earlier: int,
    later: int,
    worker_id: Seq<char>,
    ownership_epoch: int,
)
    requires
        is_history(states, changes),
        states[0].is_valid(),
        0 <= earlier <= later < states.len(),
        states[earlier].tasks.contains_key(id),
        states[earlier].tasks[id].is_ended(),
    ensures
        states[later].tasks.contains_key(id),
        states[later].tasks[id] == states[earlier].tasks[id],
        states[later].finds_none(id, worker_id, ownership_epoch),
{
    submitted_task_is_never_lost(states, changes, id, earlier, later);
    history_keeps_database_valid(states, changes, later);
    assert forall|a: Seq<char>| #[trigger] states[later].attempts.contains_key(
        a,
    ) implies !states[later].attempts[a].is_held_by(id, worker_id, ownership_epoch) by {}
}

/// A task has one current lease: if attempts at it are found for two workers,
/// these are the same worker, under the same epoch.
pub proof fn current_lease_is_unique(
    tables: Tables,
    task_id: Seq<char>,
    a: Seq<char>,
    worker_id: Seq<char>,
    ownership_epoch: u64,
    found: ActiveAttempt,
    b: Seq<char>,
    other_worker_id: Seq<char>,
    other_epoch: u64,
    other_found: ActiveAttempt,
)
    requires
        tables.is_valid(),
        tables.finds(a, task_id, worker_id, numbers::signed_64(ownership_epoch), found),
        tables.finds(b, task_id, other_worker_id, numbers::signed_64(other_epoch), other_found),
    ensures
        a == b,
        worker_id == other_worker_id,
        ownership_epoch == other_epoch,
{
    assert(tables.attempts[a].task_id == tables.attempts[b].task_id);
    if ownership_epoch != other_epoch {
        postgres_laws::stored_epochs_differ(ownership_epoch, other_epoch);
    }
}

/// A lease is exclusive: until it ends, no change but the holder's own touches
/// the attempt or its task, so that the task is leased to nobody else and no
/// recovery takes it away. A recovery sees the time as it was stored.
pub proof fn lease_is_exclusive(before: Tables, change: Change, after: Tables, a: Seq<char>)
    requires
        before.is_valid(),
        step(before, change, after),
        before.attempts.contains_key(a),
        before.attempts[a].outcome is None,
        !change.is_from_holder(before.attempts[a]),
        change matches Change::Recover { now, .. } ==> stored(now) < before.attempts[a].lease_expiry,
    ensures
        after.attempts.contains_key(a),
        after.attempts[a] == before.attempts[a],
        after.tasks.contains_key(before.attempts[a].task_id),
        after.tasks[before.attempts[a].task_id] == before.tasks[before.attempts[a].task_id],
        change matches Change::Lease { row, .. } ==> row.id@ != before.attempts[a].task_id,
{
    let id = before.attempts[a].task_id;
    assert(before.tasks.contains_key(id));
    match change {
        Change::Renew { attempt_id, .. }
        | Change::Finish { attempt_id, .. } => {
            assert(before.attempts[attempt_id].outcome is None);
        },
        Change::Retry { attempt_id, transition, .. } => {
            lemma_single(transition);
            assert(before.attempts[attempt_id].outcome is None);
        },
        Change::Recover { now, .. } => {
            recovery_changes_what_has_expired(before, change, after, id);
            assert(!before.has_expired(id, stored(now))) by {
                if before.has_expired(id, stored(now)) {
                    let b = choose|b: Seq<char>|
                        before.is_expired(b, stored(now)) && before.attempts[b].task_id == id;
                    assert(before.attempts[b].outcome is None);
                    assert(a == b);
                }
            }
        },
        _ => {},
    }
}

/// A recovery does all that it should and nothing else. A leased task whose
/// lease or deadline has passed, and that nobody else has locked, is leased no
/// more, and no attempt is under way at it: it waits with one more retry if it
/// has the time and a retry left, and is given up otherwise. A task that waits
/// past its deadline is given up. All other tasks, with all their attempts,
/// stay as they are. The time is the one that was stored.
pub proof fn recovery_changes_what_has_expired(
    before: Tables,
    change: Change,
    after: Tables,
    id: Seq<char>,
)
    requires
        before.is_valid(),
        step(before, change, after),
        change is Recover,
        before.tasks.contains_key(id),
    ensures
        after.tasks.contains_key(id),
        ({
            let now = change->Recover_now;
            if before.has_expired(id, stored(now)) && !change->Recover_locked.contains(id) {
                let (max_retries, retry_count) = postgres::retries_of(
                    before.tasks[id].retry_policy,
                )->0;
                let last = now >= before.tasks[id].deadline || stored(now)
                    >= before.tasks[id].deadline;
                &&& after.tasks[id] == TaskRow {
                    state: after.tasks[id].state,
                    available_at: stored(now),
                    retry_policy: after.tasks[id].retry_policy,
                    ..before.tasks[id]
                }
                &&& after.tasks[id].state == if last || retry_count >= max_retries {
                    TaskState::Failed
                } else {
                    TaskState::Ready
                }
                &&& postgres::retries_of(after.tasks[id].retry_policy) == Some(
                    if now >= before.tasks[id].deadline || retry_count >= max_retries {
                        (max_retries, retry_count)
                    } else {
                        (max_retries, (retry_count + 1) as u32)
                    },
                )
                &&& forall|a: Seq<char>| #[trigger]
                    after.attempts.contains_key(a) ==> !after.attempts[a].is_under_way_at(id)
            } else {
                &&& after.tasks[id] == before.tasks[id].given_up(stored(now))
                &&& forall|a: Seq<char>| #[trigger]
                    before.attempts.contains_key(a) && before.attempts[a].task_id == id
                        ==> after.attempts.contains_key(a) && after.attempts[a]
                        == before.attempts[a]
            }
        }),
{
    if let Change::Recover { locked, attempt_ids, rows, now, recovery } = change {
        let transitions = recovery.transitions@;
        lemma_transitions(
            before,
            stored(now),
            locked,
            attempt_ids,
            rows,
            now,
            transitions,
            "lease expired"@,
        );
        if before.has_expired(id, stored(now)) && !locked.contains(id) {
            let a = choose|a: Seq<char>|
                before.is_expired(a, stored(now)) && before.attempts[a].task_id == id;
            assert(transition_of(transitions, id) is Some);
            let i = choose|i: int|
                {
                    &&& 0 <= i < rows.len()
                    &&& #[trigger] rows[i].task_id@ == id
                    &&& transition_of(transitions, id) == Some(transitions[i])
                    &&& before.shows(attempt_ids[i], id, rows[i].active)
                };
            postgres_laws::retry_counts_never_fall(
                transitions[i],
                rows[i].active,
                id,
                now,
                "lease expired"@,
            );
        } else {
            assert(transition_of(transitions, id) is None) by {
                if transition_of(transitions, id) is Some {
                    let i = choose|i: int|
                        {
                            &&& 0 <= i < rows.len()
                            &&& #[trigger] rows[i].task_id@ == id
                            &&& transition_of(transitions, id) == Some(transitions[i])
                            &&& before.shows(attempt_ids[i], id, rows[i].active)
                        };
                    assert(before.is_expired(attempt_ids[i], stored(now)));
                }
            }
        }
    }
}

/// An attempt that has come to an end stays as it is, so that its lease commits
/// nothing any more.
pub proof fn ended_attempt_stays_ended(
    states: Seq<Tables>,
    changes: Seq<Change>,
    a: Seq<char>,
    earlier: int,
    later: int,
)
    requires
        is_history(states, changes),
        0 <= earlier <= later < states.len(),
        states[earlier].attempts.contains_key(a),
        states[earlier].attempts[a].outcome is Some,
    ensures
        states[later].attempts.contains_key(a),
        states[later].attempts[a] == states[earlier].attempts[a],
    decreases later - earlier,
{
    if earlier < later {
        ended_attempt_stays_ended(states, changes, a, earlier, later - 1);
        assert(step(states[later - 1], changes[later - 1], states[later]));
    }
}

/// A task whose attempt has failed is leased no more, and all others stay as
/// they are.
pub proof fn retried_task_is_leased_no_more(
    before: Tables,
    change: Change,
    after: Tables,
    id: Seq<char>,
)
    requires
        step(before, change, after),
        before.tasks.contains_key(id),
        change is Retry,
    ensures
        after.tasks.contains_key(id),
        change->Retry_task_id == id ==> after.tasks[id].state != TaskState::Leased,
        change->Retry_task_id != id ==> after.tasks[id] == before.tasks[id],
{
    if let Change::Retry { transition, .. } = change {
        lemma_single(transition);
    }
}

/// At its deadline every task comes to an end: once a recovery was made then, it
/// is done or given up, unless somebody else has locked it.
pub proof fn deadline_ends_every_task(before: Tables, change: Change, after: Tables, id: Seq<char>)
    requires
        before.is_valid(),
        step(before, change, after),
        before.tasks.contains_key(id),
        change matches Change::Recover { now, locked, .. } && before.tasks[id].deadline <= stored(
            now,
        ) && !locked.contains(id),
    ensures
        after.tasks.contains_key(id),
        after.tasks[id].is_ended(),
{
    recovery_changes_what_has_expired(before, change, after, id);
    if before.tasks[id].state == TaskState::Leased {
        let a = choose|a: Seq<char>| #[trigger]
            before.attempts.contains_key(a) && before.attempts[a].is_under_way_at(id);
        assert(before.is_expired(a, stored(change->Recover_now)));
    }
}

/// Ownership epochs never fall, as long as those under which leases on a task
/// are granted do not: an attempt at the task that is made after another one is
/// made under no lower epoch.
pub proof fn ownership_epochs_never_fall(
    states: Seq<Tables>,
    changes: Seq<Change>,
    a: Seq<char>,
    b: Seq<char>,
    n: int,
)
    requires
        is_history(states, changes),
        states[0].attempts.contains_key(a),
        !states[0].attempts.contains_key(b),
        forall|i: int|
            0 <= i < changes.len() ==> (#[trigger] changes[i]).grants_from_epoch(
                states[0].attempts[a].task_id,
                states[0].attempts[a].epoch(),
            ),
        0 <= n < states.len(),
        states[n].attempts.contains_key(b),
        states[n].attempts[b].task_id == states[0].attempts[a].task_id,
    ensures
        states[n].attempts.contains_key(a),
        states[n].attempts[a].epoch() == states[0].attempts[a].epoch(),
        states[n].attempts[b].epoch() >= states[0].attempts[a].epoch(),
    decreases n,
{
    attempt_keeps_its_owner(states, changes, a, 0, n);
    assert(n > 0);
    assert(step(states[n - 1], changes[n - 1], states[n]));
    assert(changes[n - 1].grants_from_epoch(
        states[0].attempts[a].task_id,
        states[0].attempts[a].epoch(),
    ));
    if states[n - 1].attempts.contains_key(b) {
        attempt_keeps_its_owner(states, changes, b, n - 1, n);
        ownership_epochs_never_fall(states, changes, a, b, n - 1);
    }
}

/// An attempt stays in the database, as that of the same worker at the same task
/// under the same epoch.
pub proof fn attempt_keeps_its_owner(
    states: Seq<Tables>,
    changes: Seq<Change>,
    a: Seq<char>,
    earlier: int,
    later: int,
)
    requires
        is_history(states, changes),
        0 <= earlier <= later < states.len(),
        states[earlier].attempts.contains_key(a),
    ensures
        states[later].attempts.contains_key(a),
        states[later].attempts[a] == (AttemptRow {
            lease_expiry: states[later].attempts[a].lease_expiry,
            outcome: states[later].attempts[a].outcome,
            ..states[earlier].attempts[a]
        }),
    decreases later - earlier,
{
    if earlier < later {
        attempt_keeps_its_owner(states, changes, a, earlier, later - 1);
        assert(step(states[later - 1], changes[later - 1], states[later]));
    }
}

/// The task that a worker is to have next is one and no other, if the database
/// sorts no two texts both ways.
pub proof fn next_task_is_unique(
    tables: Tables,
    pool_id: Seq<char>,
    now: int,
    locked: Set<Seq<char>>,
    id: Seq<char>,
    other: Seq<char>,
)
    requires
        !((tables.collation)(id, other) && (tables.collation)(other, id)),
        tables.is_next(id, pool_id, now, locked),
        tables.is_next(other, pool_id, now, locked),
    ensures
        id == other,
{
}

/// The tasks that wait are handed out in the same order as by a store in memory,
/// if the database sorts texts by code point.
pub proof fn tasks_go_before_alike(tables: Tables, left: TaskView, right: TaskView)
    requires
        tables.tasks.contains_key(left.id),
        tables.tasks.contains_key(right.id),
        left.priority == tables.tasks[left.id].priority,
        left.created_at == tables.tasks[left.id].created_at,
        right.priority == tables.tasks[right.id].priority,
        right.created_at == tables.tasks[right.id].created_at,
        (tables.collation)(left.id, right.id) == crate::text::precedes(left.id, right.id),
    ensures
        tables.goes_before(left.id, right.id) == left.goes_before(right),
{
}

/// A task that was added is found as it was added, but for the times, which
/// come back as they were stored.
pub proof fn added_task_is_found(tables: Tables, added: TaskInsert, row: ReadyRow)
    requires
        row.id@ == added.id@,
        tables.with_task(added).shows_ready(row),
    ensures
        postgres_laws::is_found(row, added, tables.workflows[added.workflow_id@]),
{
}

} // verus!
