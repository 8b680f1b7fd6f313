//! What holds of a store over one request, over two, and over all the requests
//! of its life.

use vstd::prelude::*;

use super::model;
use super::StoreErrorView;
use crate::domain::{LeaseView, StatusView, TaskView};

verus! {

/// A request that changes a store.
pub enum Command {
    Submit { task: TaskView },
    LeaseNext { pool_id: Seq<char>, worker_id: Seq<char>, ownership_epoch: u64, now: int },
    Renew { task_id: Seq<char>, worker_id: Seq<char>, ownership_epoch: u64, now: int },
    Complete { task_id: Seq<char>, worker_id: Seq<char>, ownership_epoch: u64, now: int },
    Retry {
        task_id: Seq<char>,
        worker_id: Seq<char>,
        ownership_epoch: u64,
        now: int,
        message: Seq<char>,
    },
    Fail {
        task_id: Seq<char>,
        worker_id: Seq<char>,
        ownership_epoch: u64,
        now: int,
        message: Seq<char>,
    },
    RecoverExpired { now: int },
}

impl Command {
    /// Whether the command comes from the holder of `lease`.
    pub open spec fn is_from_holder(self, lease: LeaseView) -> bool {
        match self {
            Command::Renew { worker_id, ownership_epoch, .. }
            | Command::Complete { worker_id, ownership_epoch, .. }
            | Command::Retry { worker_id, ownership_epoch, .. }
            | Command::Fail { worker_id, ownership_epoch, .. } => {
                worker_id == lease.owner_id && ownership_epoch == lease.ownership_epoch
            },
            Command::Submit { .. }
            | Command::LeaseNext { .. }
            | Command::RecoverExpired { .. } => false,
        }
    }

    /// Whether the command comes before `end`; a submission has no time.
    pub open spec fn comes_before(self, end: int) -> bool {
        match self {
            Command::LeaseNext { now, .. }
            | Command::Renew { now, .. }
            | Command::Complete { now, .. }
            | Command::Retry { now, .. }
            | Command::Fail { now, .. }
            | Command::RecoverExpired { now } => now < end,
            Command::Submit { .. } => true,
        }
    }

    /// Whether a lease that the command grants has at least the epoch `epoch`.
    pub open spec fn grants_from_epoch(self, epoch: u64) -> bool {
        self matches Command::LeaseNext { ownership_epoch, .. } ==> ownership_epoch >= epoch
    }
}

/// Whether `command` turns the tasks `before` into the tasks `after`.
pub open spec fn step(
    before: Map<Seq<char>, TaskView>,
    command: Command,
    after: Map<Seq<char>, TaskView>,
) -> bool {
    match command {
        Command::Submit { task } => after == model::submitted(before, task),
        Command::LeaseNext { pool_id, worker_id, ownership_epoch, now } => exists|
            given: Option<TaskView>,
        | #[trigger]
            model::leases_next(before, pool_id, worker_id, ownership_epoch, now, after, given),
        Command::Renew { task_id, worker_id, ownership_epoch, now } => after == model::settled(
            before,
            task_id,
            model::holder_reply(
                before,
                task_id,
                worker_id,
                ownership_epoch,
                now,
                |task: TaskView| task.renewed(now),
            ),
        ),
        Command::Complete { task_id, worker_id, ownership_epoch, now } => after == model::settled(
            before,
            task_id,
            model::holder_reply(
                before,
                task_id,
                worker_id,
                ownership_epoch,
                now,
                |task: TaskView| task.completed(now),
            ),
        ),
        Command::Retry { task_id, worker_id, ownership_epoch, now, message } => after
            == model::settled(
            before,
            task_id,
            model::holder_reply(
                before,
                task_id,
                worker_id,
                ownership_epoch,
                now,
                |task: TaskView| task.retried(now, message),
            ),
        ),
        Command::Fail { task_id, worker_id, ownership_epoch, now, message } => after
            == model::settled(
            before,
            task_id,
            model::holder_reply(
                before,
                task_id,
                worker_id,
                ownership_epoch,
                now,
                |task: TaskView| task.failed(now, message),
            ),
        ),
        Command::RecoverExpired { now } => after == model::recovered(before, now),
    }
}

/// Whether the store went through `states` by `commands`, one after the other.
pub open spec fn is_history(
    states: Seq<Map<Seq<char>, TaskView>>,
    commands: Seq<Command>,
) -> bool {
    &&& states.len() == commands.len() + 1
    &&& forall|i: int|
        0 <= i < commands.len() ==> step(states[i], #[trigger] commands[i], states[i + 1])
}

/// Whether `after` is the same piece of work as `before`, and no count of it
/// has fallen: what was submitted is as it was, and only the retries, the
/// attempts and the status have moved on.
pub open spec fn moves_on(before: TaskView, after: TaskView) -> bool {
    &&& after == TaskView {
        retry: after.retry,
        attempt: after.attempt,
        status: after.status,
        ..before
    }
    &&& after.retry.max_retries == before.retry.max_retries
    &&& before.retry.retry_count <= after.retry.retry_count
    &&& after.retry.retry_count <= before.retry.retry_count || after.retry.retry_count
        <= after.retry.max_retries
    &&& before.attempt.attempts_started <= after.attempt.attempts_started
    &&& before.is_terminal() ==> after == before
}

/// One command keeps what holds of a store at all times: among it, that no
/// lease goes beyond the deadline of its task.
pub proof fn step_keeps_store_valid(
    before: Map<Seq<char>, TaskView>,
    command: Command,
    after: Map<Seq<char>, TaskView>,
)
    requires
        model::is_valid(before),
        step(before, command, after),
    ensures
        model::is_valid(after),
{
}

/// One command loses no task, and moves each on: by one retry and one attempt at
/// most.
pub proof fn step_moves_on(
    before: Map<Seq<char>, TaskView>,
    command: Command,
    after: Map<Seq<char>, TaskView>,
    id: Seq<char>,
)
    requires
        model::is_valid(before),
        step(before, command, after),
        before.contains_key(id),
    ensures
        after.contains_key(id),
        moves_on(before[id], after[id]),
        after[id].retry.retry_count <= before[id].retry.retry_count + 1,
        after[id].attempt.attempts_started <= before[id].attempt.attempts_started + 1,
{
}

/// A store that starts out valid stays so.
pub proof fn history_keeps_store_valid(
    states: Seq<Map<Seq<char>, TaskView>>,
    commands: Seq<Command>,
    n: int,
)
    requires
        is_history(states, commands),
        model::is_valid(states[0]),
        0 <= n < states.len(),
    ensures
        model::is_valid(states[n]),
    decreases n,
{
    if n > 0 {
        history_keeps_store_valid(states, commands, n - 1);
        step_keeps_store_valid(states[n - 1], commands[n - 1], states[n]);
    }
}

/// A task that was accepted is never lost: it stays in the store, as the same
/// piece of work, its retries and attempts never fall, its retries never go
/// beyond what is allowed unless they came so, and once it is done or given up
/// it stays exactly as it is.
pub proof fn accepted_task_is_never_lost(
    states: Seq<Map<Seq<char>, TaskView>>,
    commands: Seq<Command>,
    id: Seq<char>,
    earlier: int,
    later: int,
)
    requires
        is_history(states, commands),
        model::is_valid(states[0]),
        0 <= earlier <= later < states.len(),
        states[earlier].contains_key(id),
    ensures
        states[later].contains_key(id),
        moves_on(states[earlier][id], states[later][id]),
    decreases later - earlier,
{
    if earlier < later {
        accepted_task_is_never_lost(states, commands, id, earlier, later - 1);
        history_keeps_store_valid(states, commands, later - 1);
        step_moves_on(states[later - 1], commands[later - 1], states[later], id);
    }
}

/// A lease that has ended, that another worker holds, or that was granted under
/// another epoch, commits nothing: the request is refused and all tasks stay as
/// they are.
pub proof fn stale_lease_cannot_commit(
    tasks: Map<Seq<char>, TaskView>,
    id: Seq<char>,
    worker_id: Seq<char>,
    ownership_epoch: u64,
    now: int,
    change: spec_fn(TaskView) -> TaskView,
)
    requires
        tasks.contains_key(id) ==> (tasks[id].status matches StatusView::Leased(lease) ==> {
            ||| lease.owner_id != worker_id
            ||| lease.ownership_epoch != ownership_epoch
            ||| now >= lease.expires_at
            ||| now >= tasks[id].limits.deadline
        }),
    ensures
        model::holder_reply(tasks, id, worker_id, ownership_epoch, now, change) is Err,
        model::settled(
            tasks,
            id,
            model::holder_reply(tasks, id, worker_id, ownership_epoch, now, change),
        ) == tasks,
{
}

/// A request that is refused changes nothing, whatever it asked for.
pub proof fn refused_request_changes_nothing(
    tasks: Map<Seq<char>, TaskView>,
    task: TaskView,
    id: Seq<char>,
    error: StoreErrorView,
)
    ensures
        model::submit_reply(tasks, task) is Err ==> model::submitted(tasks, task) == tasks,
        model::settled(tasks, id, Err(error)) == tasks,
{
}

/// Completion is committed once: from then on the task stays completed as it
/// is, and every further request to act on it is refused because it is not
/// leased.
pub proof fn completion_is_committed_once(
    states: Seq<Map<Seq<char>, TaskView>>,
    commands: Seq<Command>,
    id: Seq<char>,
    earlier: int,
    later: int,
    worker_id: Seq<char>,
    ownership_epoch: u64,
    now: int,
    change: spec_fn(TaskView) -> TaskView,
)
    requires
        is_history(states, commands),
        model::is_valid(states[0]),
        0 <= earlier <= later < states.len(),
        states[earlier].contains_key(id),
        states[earlier][id].status is Completed,
    ensures
        states[later].contains_key(id),
        states[later][id] == states[earlier][id],
        model::holder_reply(states[later], id, worker_id, ownership_epoch, now, change) == Err::<
            TaskView,
            StoreErrorView,
        >(StoreErrorView::InvalidLease("task is not leased"@)),
{
    accepted_task_is_never_lost(states, commands, id, earlier, later);
}

/// A task has one holder at a time: until its lease ends, no command but the
/// holder's own touches it.
pub proof fn lease_is_exclusive(
    before: Map<Seq<char>, TaskView>,
    command: Command,
    after: Map<Seq<char>, TaskView>,
    id: Seq<char>,
    lease: LeaseView,
)
    requires
        model::is_valid(before),
        step(before, command, after),
        before.contains_key(id),
        before[id].status == StatusView::Leased(lease),
        command.comes_before(lease.expires_at),
        !command.is_from_holder(lease),
    ensures
        after.contains_key(id),
        after[id] == before[id],
{
}

/// Over a whole run of commands that are not the holder's, a task stays with
/// its holder until its lease ends.
pub proof fn lease_stays_exclusive(
    states: Seq<Map<Seq<char>, TaskView>>,
    commands: Seq<Command>,
    id: Seq<char>,
    lease: LeaseView,
    n: int,
)
    requires
        is_history(states, commands),
        model::is_valid(states[0]),
        states[0].contains_key(id),
        states[0][id].status == StatusView::Leased(lease),
        forall|i: int|
            0 <= i < commands.len() ==> (#[trigger] commands[i]).comes_before(lease.expires_at)
                && !commands[i].is_from_holder(lease),
        0 <= n < states.len(),
    ensures
        states[n].contains_key(id),
        states[n][id] == states[0][id],
    decreases n,
{
    if n > 0 {
        lease_stays_exclusive(states, commands, id, lease, n - 1);
        history_keeps_store_valid(states, commands, n - 1);
        assert(commands[n - 1].comes_before(lease.expires_at));
        lease_is_exclusive(states[n - 1], commands[n - 1], states[n], id, lease);
    }
}

/// A task that one worker was given goes to no other one before its lease ends.
pub proof fn task_is_leased_to_one_worker(
    start: Map<Seq<char>, TaskView>,
    pool_id: Seq<char>,
    worker_id: Seq<char>,
    ownership_epoch: u64,
    now: int,
    middle: Map<Seq<char>, TaskView>,
    first: TaskView,
    other_pool_id: Seq<char>,
    other_worker_id: Seq<char>,
    other_epoch: u64,
    other_now: int,
    end: Map<Seq<char>, TaskView>,
    second: TaskView,
)
    requires
        model::is_valid(start),
        model::leases_next(
            start,
            pool_id,
            worker_id,
            ownership_epoch,
            now,
            middle,
            Some(first),
        ),
        other_now < first.lease_expiry(now),
        model::leases_next(
            middle,
            other_pool_id,
            other_worker_id,
            other_epoch,
            other_now,
            end,
            Some(second),
        ),
    ensures
        second.id != first.id,
        end.contains_key(first.id),
        end[first.id] == first,
{
}

/// A lease is worth something from the moment it is granted: it ends after
/// `now`, and not after the deadline.
pub proof fn granted_lease_is_active(
    before: Map<Seq<char>, TaskView>,
    pool_id: Seq<char>,
    worker_id: Seq<char>,
    ownership_epoch: u64,
    now: int,
    after: Map<Seq<char>, TaskView>,
    given: TaskView,
)
    requires
        model::is_valid(before),
        model::leases_next(before, pool_id, worker_id, ownership_epoch, now, after, Some(given)),
    ensures
        after.contains_key(given.id),
        after[given.id] == given,
        given.pool_id == pool_id,
        given.lease_fault(worker_id, ownership_epoch, now) is None,
        given.status matches StatusView::Leased(lease) && now < lease.expires_at
            <= given.limits.deadline,
{
}

/// The task that is handed out next is one and no other.
pub proof fn next_task_is_unique(
    tasks: Map<Seq<char>, TaskView>,
    pool_id: Seq<char>,
    now: int,
    id: Seq<char>,
    other: Seq<char>,
)
    requires
        model::is_valid(tasks),
        model::is_next(tasks, pool_id, now, id),
        model::is_next(tasks, pool_id, now, other),
    ensures
        id == other,
{
    if id != other {
        model::goes_before_is_total(tasks[id], tasks[other]);
    }
}

/// What a worker is given, and what becomes of the store, is settled by the
/// tasks and the request alone.
pub proof fn lease_next_is_settled_by_the_request(
    before: Map<Seq<char>, TaskView>,
    pool_id: Seq<char>,
    worker_id: Seq<char>,
    ownership_epoch: u64,
    now: int,
    after: Map<Seq<char>, TaskView>,
    given: Option<TaskView>,
    other_after: Map<Seq<char>, TaskView>,
    other_given: Option<TaskView>,
)
    requires
        model::is_valid(before),
        model::leases_next(before, pool_id, worker_id, ownership_epoch, now, after, given),
        model::leases_next(
            before,
            pool_id,
            worker_id,
            ownership_epoch,
            now,
            other_after,
            other_given,
        ),
    ensures
        given == other_given,
        after == other_after,
{
    let waiting = model::recovered(before, now);
    assert(model::is_valid(waiting));
    if given is Some && other_given is Some {
        next_task_is_unique(waiting, pool_id, now, given->0.id, other_given->0.id);
    }
}

/// A worker that asks gets a task if there is one for it.
pub proof fn available_task_is_handed_out(
    before: Map<Seq<char>, TaskView>,
    pool_id: Seq<char>,
    worker_id: Seq<char>,
    ownership_epoch: u64,
    now: int,
    after: Map<Seq<char>, TaskView>,
    given: Option<TaskView>,
    id: Seq<char>,
)
    requires
        before.contains_key(id),
        before[id].is_available(pool_id, now),
        model::leases_next(before, pool_id, worker_id, ownership_epoch, now, after, given),
    ensures
        given is Some,
{
    let waiting = model::recovered(before, now);
    assert(waiting.contains_key(id));
}

/// At its deadline every task comes to an end: once the time was looked at
/// then, it is done or given up.
pub proof fn deadline_ends_every_task(tasks: Map<Seq<char>, TaskView>, now: int, id: Seq<char>)
    requires
        tasks.contains_key(id),
        now >= tasks[id].limits.deadline,
    ensures
        model::recovered(tasks, now).contains_key(id),
        model::recovered(tasks, now)[id].is_terminal(),
{
}

/// A lease that has ended counts as a failed attempt: with a retry left the
/// task waits again, and its own pool can take it at once; without one it is
/// given up.
pub proof fn expired_lease_is_retried(tasks: Map<Seq<char>, TaskView>, now: int, id: Seq<char>)
    requires
        tasks.contains_key(id),
        tasks[id].status matches StatusView::Leased(lease) && now >= lease.expires_at,
        now < tasks[id].limits.deadline,
    ensures
        tasks[id].retry.retry_count < tasks[id].retry.max_retries ==> {
            &&& model::recovered(tasks, now)[id].retry.retry_count == tasks[id].retry.retry_count
                + 1
            &&& model::recovered(tasks, now)[id].is_available(tasks[id].pool_id, now)
        },
        tasks[id].retry.retry_count >= tasks[id].retry.max_retries ==> model::recovered(
            tasks,
            now,
        )[id] == tasks[id].failed(now, "lease expired"@),
{
}

/// To look at the time again, by the same clock or by one that is behind,
/// changes nothing more.
pub proof fn recovery_is_idempotent(tasks: Map<Seq<char>, TaskView>, now: int, again: int)
    requires
        again <= now,
    ensures
        model::recovered(model::recovered(tasks, now), again) == model::recovered(tasks, now),
{
    assert(model::recovered(model::recovered(tasks, now), again) =~= model::recovered(tasks, now));
}

/// A task that was accepted is found as it was submitted.
pub proof fn submitted_task_is_found(tasks: Map<Seq<char>, TaskView>, task: TaskView)
    requires
        model::submit_reply(tasks, task) is Ok,
    ensures
        !tasks.contains_key(task.id),
        model::submitted(tasks, task).contains_key(task.id),
        model::submitted(tasks, task)[task.id] == task,
{
}

/// Whether the attempts at `task` fit its retries: work on a task that waits was
/// started as often as the task was retried, and on one that is leased or done
/// once more, as far as can be counted. One that was given up may have been so
/// while it waited or while it was leased.
pub open spec fn attempts_fit_retries(task: TaskView) -> bool {
    let waiting = task.attempt.attempts_started == task.retry.retry_count;
    let started = task.attempt.attempts_started == task.retry.retry_count.saturating_add(1);
    match task.status {
        StatusView::Pending { .. } => waiting,
        StatusView::Leased(_) | StatusView::Completed { .. } => started,
        StatusView::Failed { .. } => waiting || started,
    }
}

/// If the attempts at every task fit its retries when it is submitted, they do
/// so ever after: a task that waits was started as often as it was retried, and
/// one that is leased once more.
pub proof fn attempts_follow_retries(
    states: Seq<Map<Seq<char>, TaskView>>,
    commands: Seq<Command>,
    id: Seq<char>,
    n: int,
)
    requires
        is_history(states, commands),
        model::is_valid(states[0]),
        states[0].contains_key(id) ==> attempts_fit_retries(states[0][id]),
        forall|i: int|
            0 <= i < commands.len() ==> ((#[trigger] commands[i]) matches Command::Submit { task }
                ==> (task.id == id ==> task.attempt.attempts_started == task.retry.retry_count)),
        0 <= n < states.len(),
        states[n].contains_key(id),
    ensures
        attempts_fit_retries(states[n][id]),
        states[n][id].status is Pending ==> states[n][id].attempt.attempts_started
            == states[n][id].retry.retry_count,
        states[n][id].status is Leased && states[n][id].retry.retry_count < u32::MAX
            ==> states[n][id].attempt.attempts_started == states[n][id].retry.retry_count + 1,
    decreases n,
{
    if n > 0 {
        history_keeps_store_valid(states, commands, n - 1);
        assert(step(states[n - 1], commands[n - 1], states[n]));
        if states[n - 1].contains_key(id) {
            attempts_follow_retries(states, commands, id, n - 1);
        }
    }
}

/// Ownership epochs never fall, as long as those under which leases are granted
/// do not: a task that was leased under one epoch is later leased under no
/// lower one.
pub proof fn ownership_epochs_never_fall(
    states: Seq<Map<Seq<char>, TaskView>>,
    commands: Seq<Command>,
    id: Seq<char>,
    lease: LeaseView,
    n: int,
)
    requires
        is_history(states, commands),
        model::is_valid(states[0]),
        states[0].contains_key(id),
        states[0][id].status == StatusView::Leased(lease),
        forall|i: int|
            0 <= i < commands.len() ==> (#[trigger] commands[i]).grants_from_epoch(
                lease.ownership_epoch,
            ),
        0 <= n < states.len(),
    ensures
        states[n].contains_key(id),
        states[n][id].status matches StatusView::Leased(current) ==> current.ownership_epoch
            >= lease.ownership_epoch,
    decreases n,
{
    if n > 0 {
        ownership_epochs_never_fall(states, commands, id, lease, n - 1);
        history_keeps_store_valid(states, commands, n - 1);
        step_moves_on(states[n - 1], commands[n - 1], states[n], id);
        assert(commands[n - 1].grants_from_epoch(lease.ownership_epoch));
    }
}

} // verus!
