//! What holds of a run of a worker as a whole.

use vstd::prelude::*;

use super::runtime;
use super::{
    HeldView, RunAction, RunActionView, RunEvent, RunEventView, RunState, RunStateView,
    WorkerConfig, WorkerError, WorkerErrorView,
};
use crate::domain::{StatusView, TaskView};
use crate::storage::model;
use crate::transport::{OutcomeView, ResultView, TaskOutcome};

verus! {

/// Whether a run of the worker `worker_id` of the pool `pool_id`, which can
/// carry out the activities `known`, went through `states`, being told `events`
/// and wanting `actions` done.
pub open spec fn is_run(
    worker_id: Seq<char>,
    pool_id: Seq<char>,
    known: Set<Seq<char>>,
    states: Seq<RunStateView>,
    events: Seq<RunEventView>,
    actions: Seq<RunActionView>,
) -> bool {
    &&& states.len() == events.len() + 1
    &&& actions.len() == events.len()
    &&& states[0] == RunStateView::Requesting
    &&& forall|i: int|
        0 <= i < events.len() ==> {
            &&& runtime::is_due(states[i], #[trigger] events[i])
            &&& (states[i + 1], actions[i]) == runtime::next_of(
                worker_id,
                pool_id,
                known,
                states[i],
                events[i],
            )
        }
}

/// Whether `held` is the task that the run was assigned first of all, and one
/// that the worker may work on.
pub open spec fn is_assigned(
    worker_id: Seq<char>,
    pool_id: Seq<char>,
    events: Seq<RunEventView>,
    held: HeldView,
) -> bool {
    &&& events.len() > 0
    &&& events[0] == RunEventView::Assigned(Ok(Some(held.task)))
    &&& runtime::assignment_fault(worker_id, pool_id, held.task) is None
    &&& held.task.status == StatusView::Leased(held.lease)
}

/// A run that works on a task works on the one it was assigned.
pub proof fn run_works_on_its_assignment(
    worker_id: Seq<char>,
    pool_id: Seq<char>,
    known: Set<Seq<char>>,
    states: Seq<RunStateView>,
    events: Seq<RunEventView>,
    actions: Seq<RunActionView>,
    n: int,
)
    requires
        is_run(worker_id, pool_id, known, states, events, actions),
        0 <= n < states.len(),
    ensures
        n > 0 ==> !(states[n] is Requesting),
        states[n] matches RunStateView::Executing(held) ==> is_assigned(
            worker_id,
            pool_id,
            events,
            held,
        ) && known.contains(held.task.activity_type),
        states[n] matches RunStateView::Renewing(held) ==> is_assigned(
            worker_id,
            pool_id,
            events,
            held,
        ) && known.contains(held.task.activity_type),
    decreases n,
{
    if n > 0 {
        run_works_on_its_assignment(worker_id, pool_id, known, states, events, actions, n - 1);
        assert(runtime::is_due(states[n - 1], events[n - 1]));
    }
}

/// All that a run asks for and reports is on the task it was assigned, under
/// that task's identity, attempt and ownership epoch, and that task is leased
/// to the worker, in its pool.
pub proof fn run_speaks_of_its_assignment(
    worker_id: Seq<char>,
    pool_id: Seq<char>,
    known: Set<Seq<char>>,
    states: Seq<RunStateView>,
    events: Seq<RunEventView>,
    actions: Seq<RunActionView>,
    n: int,
)
    requires
        is_run(worker_id, pool_id, known, states, events, actions),
        0 <= n < actions.len(),
    ensures
        actions[n] matches RunActionView::Renew(renewal) ==> exists|held: HeldView| #[trigger]
            is_assigned(worker_id, pool_id, events, held) && renewal == runtime::renewal_of(
                worker_id,
                held,
            ),
        actions[n] matches RunActionView::Report(result) ==> exists|held: HeldView| #[trigger]
            is_assigned(worker_id, pool_id, events, held) && result == runtime::report_of(
                held,
                result.outcome,
            ),
{
    run_works_on_its_assignment(worker_id, pool_id, known, states, events, actions, n);
    assert(runtime::is_due(states[n], events[n]));
    if states[n] is Requesting {
        if let RunEventView::Assigned(Ok(Some(task))) = events[n] {
            let held = HeldView { task, lease: task.status->Leased_0 };
            if actions[n] is Report {
                assert(is_assigned(worker_id, pool_id, events, held));
            }
        }
    }
}

/// A run reports once: after its report it only ends.
pub proof fn run_reports_once(
    worker_id: Seq<char>,
    pool_id: Seq<char>,
    known: Set<Seq<char>>,
    states: Seq<RunStateView>,
    events: Seq<RunEventView>,
    actions: Seq<RunActionView>,
    n: int,
    later: int,
)
    requires
        is_run(worker_id, pool_id, known, states, events, actions),
        0 <= n < later < actions.len(),
        actions[n] is Report,
    ensures
        later == n + 1,
        actions[later] is Stop,
{
    assert(runtime::is_due(states[n], events[n]));
    assert(states[n + 1] is Reporting);
    assert(runtime::is_due(states[n + 1], events[n + 1]));
    assert(states[n + 2] is Finished);
    if n + 2 < actions.len() {
        assert(runtime::is_due(states[n + 2], events[n + 2]));
    }
}

/// A run that ends well with a task has reported on it before, and the report
/// was taken.
pub proof fn run_with_a_task_has_reported(
    worker_id: Seq<char>,
    pool_id: Seq<char>,
    known: Set<Seq<char>>,
    states: Seq<RunStateView>,
    events: Seq<RunEventView>,
    actions: Seq<RunActionView>,
    n: int,
)
    requires
        is_run(worker_id, pool_id, known, states, events, actions),
        0 <= n < actions.len(),
        actions[n] == RunActionView::Stop(Ok::<bool, WorkerErrorView>(true)),
    ensures
        n > 0,
        actions[n - 1] is Report,
        events[n] matches RunEventView::Reported(reply) && reply is Ok,
{
    assert(runtime::is_due(states[n], events[n]));
    assert(states[n] is Reporting);
    assert(runtime::is_due(states[n - 1], events[n - 1]));
}

/// Each time a renewal is due while an activity is under way, the worker asks
/// for it, whatever the retries and attempts of the task: for the task it was
/// assigned, in its own name, under that task's attempt and epoch. The activity
/// is still under way then.
pub proof fn every_due_renewal_is_asked_for(
    worker_id: Seq<char>,
    pool_id: Seq<char>,
    known: Set<Seq<char>>,
    states: Seq<RunStateView>,
    events: Seq<RunEventView>,
    actions: Seq<RunActionView>,
    n: int,
)
    requires
        is_run(worker_id, pool_id, known, states, events, actions),
        0 <= n < events.len(),
        events[n] is RenewalDue,
    ensures
        events[0] matches RunEventView::Assigned(Ok(Some(task))) && (
        task.status matches StatusView::Leased(lease) && {
            &&& lease.owner_id == worker_id
            &&& task.pool_id == pool_id
            &&& actions[n] matches RunActionView::Renew(renewal) && {
                &&& renewal.task_id == task.id
                &&& renewal.worker_id == worker_id
                &&& renewal.attempt == task.attempt.attempts_started
                &&& renewal.ownership_epoch == lease.ownership_epoch
            }
            &&& states[n + 1] matches RunStateView::Renewing(held) && held.task == task
                && held.lease == lease
        }),
{
    run_works_on_its_assignment(worker_id, pool_id, known, states, events, actions, n);
    assert(runtime::is_due(states[n], events[n]));
}

/// Whatever an activity ends with is reported, whatever the retries and attempts
/// of the task: the output if there is one, and the reason if not, for the task
/// that was assigned, under its attempt and epoch.
pub proof fn every_end_is_reported(
    worker_id: Seq<char>,
    pool_id: Seq<char>,
    known: Set<Seq<char>>,
    states: Seq<RunStateView>,
    events: Seq<RunEventView>,
    actions: Seq<RunActionView>,
    n: int,
)
    requires
        is_run(worker_id, pool_id, known, states, events, actions),
        0 <= n < events.len(),
        events[n] is Executed,
    ensures
        events[0] matches RunEventView::Assigned(Ok(Some(task))) && (
        task.status matches StatusView::Leased(lease) && (
        actions[n] matches RunActionView::Report(result) && {
            &&& result.task_id == task.id
            &&& result.attempt == task.attempt.attempts_started
            &&& result.ownership_epoch == lease.ownership_epoch
            &&& match events[n] {
                RunEventView::Executed(Ok(output)) => result.outcome == OutcomeView::Succeeded(
                    output,
                ),
                RunEventView::Executed(Err(reason)) => result.outcome == (OutcomeView::Failed {
                    message: reason,
                }),
                _ => false,
            }
        })),
        states[n + 1] is Reporting,
{
    run_works_on_its_assignment(worker_id, pool_id, known, states, events, actions, n);
    assert(runtime::is_due(states[n], events[n]));
}

/// A worker works on what it is assigned if and only if the task is leased to it
/// and in its pool; nothing else of the task matters. It starts the activity if
/// it knows it, and reports the task as failed if not. It stops over any other
/// assignment and says what is wrong with it.
pub proof fn assignment_is_worked_on(
    worker_id: Seq<char>,
    pool_id: Seq<char>,
    known: Set<Seq<char>>,
    task: TaskView,
)
    ensures
        ({
            let (state, action) = runtime::next_of(
                worker_id,
                pool_id,
                known,
                RunStateView::Requesting,
                RunEventView::Assigned(Ok(Some(task))),
            );
            match task.status {
                StatusView::Leased(lease) => if lease.owner_id != worker_id {
                    &&& state is Finished
                    &&& action == RunActionView::Stop(
                        Err(
                            WorkerErrorView::InvalidAssignment(
                                "task lease belongs to another worker"@,
                            ),
                        ),
                    )
                } else if task.pool_id != pool_id {
                    &&& state is Finished
                    &&& action == RunActionView::Stop(
                        Err(WorkerErrorView::InvalidAssignment("task belongs to another pool"@)),
                    )
                } else if known.contains(task.activity_type) {
                    &&& state == RunStateView::Executing(HeldView { task, lease })
                    &&& action is Execute
                } else {
                    &&& state is Reporting
                    &&& action == RunActionView::Report(
                        ResultView {
                            task_id: task.id,
                            attempt: task.attempt.attempts_started,
                            ownership_epoch: lease.ownership_epoch,
                            outcome: OutcomeView::Failed {
                                message: "activity type is not registered: "@ + task.activity_type,
                            },
                        },
                    )
                },
                _ => {
                    &&& state is Finished
                    &&& action == RunActionView::Stop(
                        Err(
                            WorkerErrorView::InvalidAssignment(
                                "orchestrator returned a task that was not leased"@,
                            ),
                        ),
                    )
                },
            }
        }),
{
}

/// What the orchestrator answers decides how a run goes on: without a task it
/// ends, after a renewal it goes on with the same task, after a report it ends
/// with the task done, and an error ends it with that error, whatever it is at.
pub proof fn answers_decide_how_a_run_goes_on(
    worker_id: Seq<char>,
    pool_id: Seq<char>,
    known: Set<Seq<char>>,
    held: HeldView,
    reason: Seq<char>,
)
    ensures
        ({
            let next = |state: RunStateView, event: RunEventView|
                runtime::next_of(worker_id, pool_id, known, state, event);
            let stopped = (
                RunStateView::Finished,
                RunActionView::Stop(Err(WorkerErrorView::Orchestrator(reason))),
            );
            &&& next(RunStateView::Requesting, RunEventView::Assigned(Ok(None))) == (
                RunStateView::Finished,
                RunActionView::Stop(Ok::<bool, WorkerErrorView>(false)),
            )
            &&& next(RunStateView::Requesting, RunEventView::Assigned(Err(reason))) == stopped
            &&& next(RunStateView::Renewing(held), RunEventView::Renewed(Ok(()))) == (
                RunStateView::Executing(held),
                RunActionView::Wait,
            )
            &&& next(RunStateView::Renewing(held), RunEventView::Renewed(Err(reason))) == stopped
            &&& next(RunStateView::Reporting, RunEventView::Reported(Ok(()))) == (
                RunStateView::Finished,
                RunActionView::Stop(Ok::<bool, WorkerErrorView>(true)),
            )
            &&& next(RunStateView::Reporting, RunEventView::Reported(Err(reason))) == stopped
        }),
{
}

/// A run can be told whatever can happen where it stands: the answer that it
/// waits for, and while an activity is under way both that a renewal is due and
/// that the activity has ended, whatever the task.
pub proof fn run_can_be_told_what_happens(
    held: HeldView,
    assigned: Result<Option<TaskView>, Seq<char>>,
    answer: Result<(), Seq<char>>,
    executed: Result<Seq<u8>, Seq<char>>,
)
    ensures
        runtime::is_due(RunStateView::Requesting, RunEventView::Assigned(assigned)),
        runtime::is_due(RunStateView::Executing(held), RunEventView::RenewalDue),
        runtime::is_due(RunStateView::Executing(held), RunEventView::Executed(executed)),
        runtime::is_due(RunStateView::Renewing(held), RunEventView::Renewed(answer)),
        runtime::is_due(RunStateView::Reporting, RunEventView::Reported(answer)),
{
}

/// A configuration is refused if and only if it lets the worker do nothing or
/// leaves it without a pause; the first comes first.
pub proof fn configuration_needs_work_and_pauses(config: WorkerConfig)
    ensures
        config.fault() is None <==> config.max_concurrency > 0 && config.idle_poll_interval@ > 0
            && config.lease_renewal_interval@ > 0,
        config.max_concurrency == 0 ==> config.fault() == Some(
            "max_concurrency must be greater than zero"@,
        ),
        config.max_concurrency > 0 && (config.idle_poll_interval@ == 0
            || config.lease_renewal_interval@ == 0) ==> config.fault() == Some(
            "poll and lease renewal intervals must be greater than zero"@,
        ),
{
}

/// The errors of a worker are put into words that give the reason.
pub proof fn worker_errors_are_put_into_words(reason: Seq<char>)
    ensures
        WorkerErrorView::InvalidConfiguration(reason).words() == reason,
        WorkerErrorView::InvalidAssignment(reason).words() == reason,
        WorkerErrorView::WorkerLoop(reason).words() == reason,
        WorkerErrorView::Orchestrator(reason).words() == "orchestrator request failed: "@ + reason,
{
}

/// Events and actions are seen as they are.
pub proof fn run_is_seen_as_it_is(event: RunEvent, action: RunAction, state: RunState)
    ensures
        match event {
            RunEvent::Assigned(Ok(Some(assignment))) => event@ == RunEventView::Assigned(
                Ok(Some(assignment.task@)),
            ),
            RunEvent::Assigned(Ok(None)) => event@ == RunEventView::Assigned(Ok(None)),
            RunEvent::Assigned(Err(error)) => event@ == RunEventView::Assigned(Err(error.message@)),
            RunEvent::RenewalDue => event@ is RenewalDue,
            RunEvent::Renewed(reply) => event@ matches RunEventView::Renewed(seen) && reply is Ok
                == seen is Ok && (reply matches Err(error) ==> seen == Err::<(), _>(
                error.message@,
            )),
            RunEvent::Executed(Ok(output)) => event@ == RunEventView::Executed(Ok(output@)),
            RunEvent::Executed(Err(error)) => event@ == RunEventView::Executed(Err(error.message@)),
            RunEvent::Reported(reply) => event@ matches RunEventView::Reported(seen) && reply is Ok
                == seen is Ok && (reply matches Err(error) ==> seen == Err::<(), _>(
                error.message@,
            )),
        },
        match action {
            RunAction::Request { worker_id, pool_id } => action@ == (RunActionView::Request {
                worker_id: worker_id.0@,
                pool_id: pool_id.0@,
            }),
            RunAction::Execute => action@ is Execute,
            RunAction::Wait => action@ is Wait,
            RunAction::Renew(renewal) => action@ matches RunActionView::Renew(seen) && {
                &&& seen.task_id == renewal.task_id.0@
                &&& seen.worker_id == renewal.worker_id.0@
                &&& seen.attempt == renewal.attempt
                &&& seen.ownership_epoch == renewal.ownership_epoch
            },
            RunAction::Report(result) => action@ matches RunActionView::Report(seen) && {
                &&& seen.task_id == result.task_id.0@
                &&& seen.attempt == result.attempt
                &&& seen.ownership_epoch == result.ownership_epoch
                &&& match result.outcome {
                    TaskOutcome::Succeeded(output) => seen.outcome == OutcomeView::Succeeded(
                        output@,
                    ),
                    TaskOutcome::Failed { message } => seen.outcome == (OutcomeView::Failed {
                        message: message@,
                    }),
                }
            },
            RunAction::Stop(Ok(had_task)) => action@ == RunActionView::Stop(
                Ok::<bool, WorkerErrorView>(had_task),
            ),
            RunAction::Stop(Err(error)) => action@ == RunActionView::Stop(
                Err::<bool, _>(
                    match error {
                        WorkerError::InvalidConfiguration(
                            reason,
                        ) => WorkerErrorView::InvalidConfiguration(reason@),
                        WorkerError::InvalidAssignment(reason) => WorkerErrorView::InvalidAssignment(
                            reason@,
                        ),
                        WorkerError::Orchestrator(fault) => WorkerErrorView::Orchestrator(
                            fault.message@,
                        ),
                        WorkerError::WorkerLoop(reason) => WorkerErrorView::WorkerLoop(reason@),
                    },
                ),
            ),
        },
        match state {
            RunState::Requesting => state@ is Requesting,
            RunState::Executing(held) => state@ == RunStateView::Executing(
                HeldView { task: held.task@, lease: held.lease@ },
            ),
            RunState::Renewing(held) => state@ == RunStateView::Renewing(
                HeldView { task: held.task@, lease: held.lease@ },
            ),
            RunState::Reporting => state@ is Reporting,
            RunState::Finished => state@ is Finished,
        },
{
}

/// What a store hands to a worker of a pool, that worker works on.
pub proof fn granted_task_is_accepted(
    before: Map<Seq<char>, TaskView>,
    pool_id: Seq<char>,
    worker_id: Seq<char>,
    ownership_epoch: u64,
    now: int,
    after: Map<Seq<char>, TaskView>,
    given: TaskView,
)
    requires
        model::leases_next(before, pool_id, worker_id, ownership_epoch, now, after, Some(given)),
    ensures
        runtime::assignment_fault(worker_id, pool_id, given) is None,
{
}

} // verus!
