//! What the calls of a worker do, said of the calls themselves.

use vstd::prelude::*;

use super::{
    ActivityError, ActivityRegistry, Held, RunAction, RunEvent, RunState, SlotAction, Worker,
    WorkerConfig, WorkerError, WorkerId,
};
use crate::domain::{ActivityType, PoolId, Task, TaskStatus};
use crate::time::Duration;
use crate::transport::{OrchestratorClientError, TaskAssignment, TaskOutcome, TaskResult};

verus! {

/// A worker is made if and only if it may work on some task at a time and has
/// pauses between its questions and its renewals; it then has what it was given.
/// A configuration that is refused is told the first of these that is wrong.
pub proof fn new_worker_has_what_it_was_given<A, O>(
    id: WorkerId,
    pool: PoolId,
    activities: ActivityRegistry<A>,
    orchestrator: O,
    config: WorkerConfig,
    result: Result<Worker<A, O>, WorkerError>,
)
    requires
        call_ensures(Worker::<A, O>::new, (id, pool, activities, orchestrator, config), result),
    ensures
        result is Ok <==> config.max_concurrency > 0 && config.idle_poll_interval@ > 0
            && config.lease_renewal_interval@ > 0,
        result matches Err(error) ==> (error matches WorkerError::InvalidConfiguration(reason)
            && reason@ == if config.max_concurrency == 0 {
            "max_concurrency must be greater than zero"@
        } else {
            "poll and lease renewal intervals must be greater than zero"@
        }),
        result matches Ok(worker) ==> {
            &&& worker.id == id
            &&& worker.pool == pool
            &&& worker.activities == activities
            &&& worker.max_concurrency == config.max_concurrency
            &&& worker.orchestrator == orchestrator
            &&& worker.idle_poll_interval == config.idle_poll_interval
            &&& worker.lease_renewal_interval == config.lease_renewal_interval
        },
{
}

/// A worker that is not told otherwise works on one task at a time, asks again
/// after a second and renews every ten seconds.
pub proof fn default_configuration_is_valid(config: WorkerConfig)
    requires
        call_ensures(<WorkerConfig as Default>::default, (), config),
    ensures
        config.max_concurrency == 1,
        config.idle_poll_interval@ == 1_000_000_000,
        config.lease_renewal_interval@ == 10_000_000_000,
{
}

/// A run starts with the question for a task, in the name of the worker and of
/// its pool.
pub proof fn run_starts_with_a_question<A, O>(
    worker: Worker<A, O>,
    state: RunState,
    action: RunAction,
)
    requires
        call_ensures(Worker::<A, O>::start_run, (&worker,), (state, action)),
    ensures
        state is Requesting,
        action matches RunAction::Request { worker_id, pool_id } && worker_id.0@ == worker.id.0@
            && pool_id.0@ == worker.pool.0@,
{
}

/// Whether `result` reports on `task`, under its attempt and the epoch of its
/// lease.
pub open spec fn reports_on(result: TaskResult, task: Task, epoch: u64) -> bool {
    &&& result.task_id.0@ == task.id.0@
    &&& result.attempt == task.attempt.attempts_started
    &&& result.ownership_epoch == epoch
}

/// Whether `next` is how a run ends over an assignment that the worker may not
/// work on.
pub open spec fn stops_over_assignment(next: (RunState, RunAction), reason: Seq<char>) -> bool {
    &&& next.0 is Finished
    &&& next.1 matches RunAction::Stop(Err(WorkerError::InvalidAssignment(message))) && message@
        == reason
}

/// Whether `next` is what a worker does about `task` when it is assigned: a task
/// that is leased to it, in its pool, is executed if the worker can carry it out
/// and is reported as failed if not; any other stops the run.
pub open spec fn answers_assignment<A, O>(
    worker: Worker<A, O>,
    task: Task,
    next: (RunState, RunAction),
) -> bool {
    match task.status {
        TaskStatus::Leased(lease) => if lease.owner_id.0@ != worker.id.0@ {
            stops_over_assignment(next, "task lease belongs to another worker"@)
        } else if task.pool_id.0@ != worker.pool.0@ {
            stops_over_assignment(next, "task belongs to another pool"@)
        } else if worker.activities@.contains_key(task.activity_type.0@) {
            &&& next.0 matches RunState::Executing(held) && held.task@ == task@ && held.lease@
                == lease@
            &&& next.1 is Execute
        } else {
            &&& next.0 is Reporting
            &&& next.1 matches RunAction::Report(result) && reports_on(
                result,
                task,
                lease.ownership_epoch,
            ) && (result.outcome matches TaskOutcome::Failed { message } && message@
                == "activity type is not registered: "@ + task.activity_type.0@)
        },
        _ => stops_over_assignment(next, "orchestrator returned a task that was not leased"@),
    }
}

/// Whether `next` is how a run ends when the orchestrator could not be asked.
pub open spec fn stops_over_orchestrator(next: (RunState, RunAction), reason: Seq<char>) -> bool {
    &&& next.0 is Finished
    &&& next.1 matches RunAction::Stop(Err(WorkerError::Orchestrator(error))) && error.message@
        == reason
}

/// A worker answers an assignment by what it may and can work on.
pub proof fn assignment_is_answered<A, O>(
    worker: Worker<A, O>,
    assignment: TaskAssignment,
    next: (RunState, RunAction),
)
    requires
        worker.activities.wf(),
        call_ensures(Worker::<A, O>::accept_assignment, (&worker, assignment), next),
    ensures
        answers_assignment(worker, assignment.task, next),
{
}

/// A run goes on as it is told: it answers an assignment, ends without one, asks
/// for every renewal that is due, goes on with the same task once it has it,
/// reports what the activity has ended with, and ends once the report was taken.
/// An error of the orchestrator ends it with that error.
pub proof fn run_goes_on_as_told<A, O>(
    worker: Worker<A, O>,
    state: RunState,
    event: RunEvent,
    next: (RunState, RunAction),
)
    requires
        worker.activities.wf(),
        call_ensures(Worker::<A, O>::advance, (&worker, state, event), next),
        match state {
            RunState::Requesting => event is Assigned,
            RunState::Executing(_) => event is RenewalDue || event is Executed,
            RunState::Renewing(_) => event is Renewed,
            RunState::Reporting => event is Reported,
            RunState::Finished => false,
        },
    ensures
        match (state, event) {
            (_, RunEvent::Assigned(Ok(Some(assignment)))) => answers_assignment(
                worker,
                assignment.task,
                next,
            ),
            (_, RunEvent::Assigned(Ok(None))) => next.0 is Finished && (
            next.1 matches RunAction::Stop(Ok(had_task)) && !had_task),
            (RunState::Executing(held), RunEvent::RenewalDue) => {
                &&& next.0 matches RunState::Renewing(same) && same.task@ == held.task@
                    && same.lease@ == held.lease@
                &&& next.1 matches RunAction::Renew(renewal) && {
                    &&& renewal.task_id.0@ == held.task.id.0@
                    &&& renewal.worker_id.0@ == worker.id.0@
                    &&& renewal.attempt == held.task.attempt.attempts_started
                    &&& renewal.ownership_epoch == held.lease.ownership_epoch
                }
            },
            (RunState::Executing(held), RunEvent::Executed(executed)) => {
                &&& next.0 is Reporting
                &&& next.1 matches RunAction::Report(result) && reports_on(
                    result,
                    held.task,
                    held.lease.ownership_epoch,
                ) && match executed {
                    Ok(output) => result.outcome matches TaskOutcome::Succeeded(reported)
                        && reported@ == output@,
                    Err(error) => result.outcome matches TaskOutcome::Failed { message } && message@
                        == error.message@,
                }
            },
            (RunState::Renewing(held), RunEvent::Renewed(Ok(()))) => {
                &&& next.0 matches RunState::Executing(same) && same.task@ == held.task@
                    && same.lease@ == held.lease@
                &&& next.1 is Wait
            },
            (_, RunEvent::Reported(Ok(()))) => next.0 is Finished && (
            next.1 matches RunAction::Stop(Ok(had_task)) && had_task),
            (_, RunEvent::Assigned(Err(error)))
            | (_, RunEvent::Renewed(Err(error)))
            | (_, RunEvent::Reported(Err(error))) => stops_over_orchestrator(next, error.message@),
            _ => false,
        },
{
}

/// What is executed for a task is the activity for its type, on its input, with
/// the worker's pause between two renewals.
pub proof fn execution_is_that_of_the_task<A, O>(
    worker: Worker<A, O>,
    held: Held,
    result: (&A, &Vec<u8>, Duration),
    found: Option<&A>,
)
    requires
        worker.activities.wf(),
        worker.activities@.contains_key(held.task.activity_type.0@),
        call_ensures(Worker::<A, O>::execution, (&worker, &held), result),
        call_ensures(
            ActivityRegistry::<A>::get,
            (&worker.activities, &held.task.activity_type),
            found,
        ),
    ensures
        found == Some(result.0),
        result.1@ == held.task.input@,
        result.2@ == worker.lease_renewal_interval@,
{
}

/// A worker asks again at once after a task, after its pause without one, and
/// stops over an error. It ends as its first loop does.
pub proof fn loops_go_on_until_an_error<A, O>(
    worker: Worker<A, O>,
    answer: Result<bool, WorkerError>,
    then_what: SlotAction,
    ended: Option<Result<Result<(), WorkerError>, String>>,
    result: Result<(), WorkerError>,
)
    requires
        call_ensures(Worker::<A, O>::after_run, (&worker, answer), then_what),
        call_ensures(Worker::<A, O>::after_first_loop, (&worker, ended), result),
    ensures
        then_what is RunAgain <==> answer == Ok::<bool, WorkerError>(true),
        answer == Ok::<bool, WorkerError>(false) ==> then_what == SlotAction::Sleep(
            worker.idle_poll_interval,
        ),
        answer matches Err(error) ==> then_what == SlotAction::Stop(error),
        ended is None ==> result is Ok,
        ended matches Some(Ok(first)) ==> result == first,
        ended matches Some(Err(reason)) ==> (result matches Err(WorkerError::WorkerLoop(message))
            && message@ == reason@),
{
}

/// A new registry knows no activity, and one that was registered is the one that
/// is found, in place of any before it, beside all the others.
pub proof fn registered_activity_is_found<A>()
    ensures
        forall|registry: ActivityRegistry<A>, name: ActivityType, found: Option<&A>|
            (#[trigger] call_ensures(ActivityRegistry::<A>::new, (), registry)) && (
            #[trigger] call_ensures(ActivityRegistry::<A>::get, (&registry, &name), found))
                ==> registry.wf() && found is None,
        forall|
            registry: &mut ActivityRegistry<A>,
            name: ActivityType,
            activity: A,
            asked: ActivityType,
            before: Option<&A>,
            found: Option<&A>,
        |
            (#[trigger] call_ensures(
                ActivityRegistry::<A>::register,
                (registry, name, activity),
                (),
            )) && registry.wf() && (#[trigger] call_ensures(
                ActivityRegistry::<A>::get,
                (&*registry, &asked),
                before,
            )) && (#[trigger] call_ensures(
                ActivityRegistry::<A>::get,
                (&*final(registry), &asked),
                found,
            )) ==> {
                &&& final(registry).wf()
                &&& asked.0@ == name.0@ ==> (found matches Some(same) && *same == activity)
                &&& asked.0@ != name.0@ ==> found == before
            },
{
}

/// The errors are put into words that give the reason.
pub proof fn errors_are_described(
    message: String,
    activity_error: ActivityError,
    activity_words: String,
    client_error: OrchestratorClientError,
    client_words: String,
    error: WorkerError,
    words: String,
)
    requires
        call_ensures(ActivityError::new::<String>, (message,), activity_error),
        call_ensures(ActivityError::describe, (&activity_error,), activity_words),
        call_ensures(OrchestratorClientError::new::<String>, (message,), client_error),
        call_ensures(OrchestratorClientError::describe, (&client_error,), client_words),
        call_ensures(WorkerError::describe, (&error,), words),
    ensures
        activity_words@ == message@,
        client_words@ == message@,
        words@ == match error {
            WorkerError::InvalidConfiguration(reason) => reason@,
            WorkerError::InvalidAssignment(reason) => reason@,
            WorkerError::WorkerLoop(reason) => reason@,
            WorkerError::Orchestrator(fault) => "orchestrator request failed: "@ + fault.message@,
        },
{
}

} // verus!
