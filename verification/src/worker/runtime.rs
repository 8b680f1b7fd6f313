//! The decisions of a worker: which configurations it takes, which assignments
//! it accepts, when it renews a lease and what it reports. What it decides is
//! carried out elsewhere, and what came of it is handed back as an event.

use vstd::prelude::*;

use super::{ActivityError, ActivityRegistry};
use crate::domain::{Lease, LeaseView, PoolId, StatusView, Task, TaskStatus, TaskView};
use crate::time::{Duration, NANOS_PER_SEC};
use crate::transport::{
    LeaseRenewal, OrchestratorClientError, OutcomeView, RenewalView, ResultView, TaskAssignment,
    TaskOutcome, TaskResult,
};

verus! {

/// The identity of a worker.
#[derive(Debug, PartialEq, Eq, Hash)]
pub struct WorkerId(pub String);

impl View for WorkerId {
    type V = Seq<char>;

    open spec fn view(&self) -> Seq<char> {
        self.0@
    }
}

impl Clone for WorkerId {
    fn clone(&self) -> (result: Self)
        ensures
            result@ == self@,
    {
        WorkerId(self.0.clone())
    }
}

/// How a worker goes about its work.
#[derive(Clone, Copy, Debug, PartialEq, Eq)]
pub struct WorkerConfig {
    /// How many tasks it works on at a time.
    pub max_concurrency: usize,
    /// How long it waits before it asks again when there was no task.
    pub idle_poll_interval: Duration,
    /// How long it works on a task before it renews the lease, and again.
    pub lease_renewal_interval: Duration,
}

impl WorkerConfig {
    /// What is wrong with the configuration, if anything is.
    pub open spec fn fault(self) -> Option<Seq<char>> {
        if self.max_concurrency == 0 {
            Some("max_concurrency must be greater than zero"@)
        } else if self.idle_poll_interval@ == 0 || self.lease_renewal_interval@ == 0 {
            Some("poll and lease renewal intervals must be greater than zero"@)
        } else {
            None
        }
    }
}

impl Default for WorkerConfig {
    fn default() -> (result: Self)
        ensures
            result.max_concurrency == 1,
            result.idle_poll_interval@ == 1 * NANOS_PER_SEC,
            result.lease_renewal_interval@ == 10 * NANOS_PER_SEC,
    {
        WorkerConfig {
            max_concurrency: 1,
            idle_poll_interval: Duration::from_secs(1),
            lease_renewal_interval: Duration::from_secs(10),
        }
    }
}

/// Why a worker stops.
#[derive(Debug)]
pub enum WorkerError {
    /// It cannot work with its configuration.
    InvalidConfiguration(String),
    /// It was given a task that it may not work on.
    InvalidAssignment(String),
    /// The orchestrator could not be asked.
    Orchestrator(OrchestratorClientError),
    /// One of its loops broke off.
    WorkerLoop(String),
}

/// What a [`WorkerError`] says.
pub enum WorkerErrorView {
    InvalidConfiguration(Seq<char>),
    InvalidAssignment(Seq<char>),
    Orchestrator(Seq<char>),
    WorkerLoop(Seq<char>),
}

impl View for WorkerError {
    type V = WorkerErrorView;

    open spec fn view(&self) -> WorkerErrorView {
        match self {
            WorkerError::InvalidConfiguration(message) => WorkerErrorView::InvalidConfiguration(
                message@,
            ),
            WorkerError::InvalidAssignment(message) => WorkerErrorView::InvalidAssignment(message@),
            WorkerError::Orchestrator(error) => WorkerErrorView::Orchestrator(error.message@),
            WorkerError::WorkerLoop(message) => WorkerErrorView::WorkerLoop(message@),
        }
    }
}

impl WorkerErrorView {
    /// The error in words.
    pub open spec fn words(self) -> Seq<char> {
        match self {
            WorkerErrorView::InvalidConfiguration(message) => message,
            WorkerErrorView::InvalidAssignment(message) => message,
            WorkerErrorView::Orchestrator(message) => "orchestrator request failed: "@ + message,
            WorkerErrorView::WorkerLoop(message) => message,
        }
    }
}

impl WorkerError {
    /// The error in words.
    pub fn describe(&self) -> (result: String)
        ensures
            result@ == self@.words(),
    {
        match self {
            WorkerError::InvalidConfiguration(message) => message.clone(),
            WorkerError::InvalidAssignment(message) => message.clone(),
            WorkerError::Orchestrator(error) => String::from(
                "orchestrator request failed: ",
            ).concat(error.describe().as_str()),
            WorkerError::WorkerLoop(message) => message.clone(),
        }
    }
}

/// A worker: who it is, what it can do, and how it goes about it. `A` is what
/// carries out an activity, `O` is what reaches the orchestrator.
pub struct Worker<A, O> {
    /// Its identity.
    pub id: WorkerId,
    /// The pool whose tasks it takes.
    pub pool: PoolId,
    /// What it can carry out.
    pub activities: ActivityRegistry<A>,
    /// How many tasks it works on at a time.
    pub max_concurrency: usize,
    /// What it reaches the orchestrator through.
    pub orchestrator: O,
    /// How long it waits before it asks again when there was no task.
    pub idle_poll_interval: Duration,
    /// How long it works on a task before it renews the lease, and again.
    pub lease_renewal_interval: Duration,
}

impl<A: Clone, O: Clone> Clone for Worker<A, O> {
    fn clone(&self) -> (result: Self)
        ensures
            result.id@ == self.id@,
            result.pool@ == self.pool@,
            self.activities.wf() ==> {
                &&& result.activities.wf()
                &&& result.activities@.dom() == self.activities@.dom()
                &&& forall|name: Seq<char>| #[trigger]
                    self.activities@.contains_key(name) ==> cloned(
                        self.activities@[name],
                        result.activities@[name],
                    )
            },
            result.max_concurrency == self.max_concurrency,
            cloned(self.orchestrator, result.orchestrator),
            result.idle_poll_interval == self.idle_poll_interval,
            result.lease_renewal_interval == self.lease_renewal_interval,
    {
        Worker {
            id: self.id.clone(),
            pool: self.pool.clone(),
            activities: self.activities.clone(),
            max_concurrency: self.max_concurrency,
            orchestrator: self.orchestrator.clone(),
            idle_poll_interval: self.idle_poll_interval,
            lease_renewal_interval: self.lease_renewal_interval,
        }
    }
}

/// A task that a worker is at work on, with the lease it holds on it.
pub struct Held {
    /// The task as it was assigned.
    pub task: Task,
    /// The lease as it was assigned.
    pub lease: Lease,
}

/// What a [`Held`] task says.
pub struct HeldView {
    pub task: TaskView,
    pub lease: LeaseView,
}

impl View for Held {
    type V = HeldView;

    open spec fn view(&self) -> HeldView {
        HeldView { task: self.task@, lease: self.lease@ }
    }
}

/// How far one run of a worker, from the question for a task to the report on
/// it, has come.
pub enum RunState {
    /// It has asked for a task.
    Requesting,
    /// The activity is under way.
    Executing(Held),
    /// The activity is under way, and a renewal of the lease was asked for.
    Renewing(Held),
    /// The result was reported.
    Reporting,
    /// It is over.
    Finished,
}

/// What a [`RunState`] says.
pub enum RunStateView {
    Requesting,
    Executing(HeldView),
    Renewing(HeldView),
    Reporting,
    Finished,
}

impl View for RunState {
    type V = RunStateView;

    open spec fn view(&self) -> RunStateView {
        match self {
            RunState::Requesting => RunStateView::Requesting,
            RunState::Executing(held) => RunStateView::Executing(held@),
            RunState::Renewing(held) => RunStateView::Renewing(held@),
            RunState::Reporting => RunStateView::Reporting,
            RunState::Finished => RunStateView::Finished,
        }
    }
}

/// What a run is told.
pub enum RunEvent {
    /// The orchestrator has answered the question for a task.
    Assigned(Result<Option<TaskAssignment>, OrchestratorClientError>),
    /// The time to renew the lease has come.
    RenewalDue,
    /// The orchestrator has answered the renewal.
    Renewed(Result<(), OrchestratorClientError>),
    /// The activity has come to its end.
    Executed(Result<Vec<u8>, ActivityError>),
    /// The orchestrator has answered the report.
    Reported(Result<(), OrchestratorClientError>),
}

/// What a [`RunEvent`] says; an error by its reason.
pub enum RunEventView {
    Assigned(Result<Option<TaskView>, Seq<char>>),
    RenewalDue,
    Renewed(Result<(), Seq<char>>),
    Executed(Result<Seq<u8>, Seq<char>>),
    Reported(Result<(), Seq<char>>),
}

impl View for RunEvent {
    type V = RunEventView;

    open spec fn view(&self) -> RunEventView {
        match self {
            RunEvent::Assigned(Ok(Some(assignment))) => RunEventView::Assigned(
                Ok(Some(assignment.task@)),
            ),
            RunEvent::Assigned(Ok(None)) => RunEventView::Assigned(Ok(None)),
            RunEvent::Assigned(Err(error)) => RunEventView::Assigned(Err(error.message@)),
            RunEvent::RenewalDue => RunEventView::RenewalDue,
            RunEvent::Renewed(Ok(())) => RunEventView::Renewed(Ok(())),
            RunEvent::Renewed(Err(error)) => RunEventView::Renewed(Err(error.message@)),
            RunEvent::Executed(Ok(output)) => RunEventView::Executed(Ok(output@)),
            RunEvent::Executed(Err(error)) => RunEventView::Executed(Err(error.message@)),
            RunEvent::Reported(Ok(())) => RunEventView::Reported(Ok(())),
            RunEvent::Reported(Err(error)) => RunEventView::Reported(Err(error.message@)),
        }
    }
}

/// What a run wants done next.
pub enum RunAction {
    /// Ask the orchestrator for a task for this worker of this pool.
    Request {
        /// The worker.
        worker_id: WorkerId,
        /// Its pool.
        pool_id: PoolId,
    },
    /// Start the activity on the task's input, and the renewal timer, as
    /// [`Worker::execution`] says.
    Execute,
    /// Go on with the activity until it ends or a renewal is due.
    Wait,
    /// Ask the orchestrator for this renewal; the activity waits.
    Renew(LeaseRenewal),
    /// Report this result to the orchestrator.
    Report(TaskResult),
    /// End the run with this answer: whether there was a task, or why the
    /// worker stops.
    Stop(Result<bool, WorkerError>),
}

/// What a [`RunAction`] says.
pub enum RunActionView {
    Request { worker_id: Seq<char>, pool_id: Seq<char> },
    Execute,
    Wait,
    Renew(RenewalView),
    Report(ResultView),
    Stop(Result<bool, WorkerErrorView>),
}

impl View for RunAction {
    type V = RunActionView;

    open spec fn view(&self) -> RunActionView {
        match self {
            RunAction::Request { worker_id, pool_id } => RunActionView::Request {
                worker_id: worker_id@,
                pool_id: pool_id@,
            },
            RunAction::Execute => RunActionView::Execute,
            RunAction::Wait => RunActionView::Wait,
            RunAction::Renew(renewal) => RunActionView::Renew(renewal@),
            RunAction::Report(result) => RunActionView::Report(result@),
            RunAction::Stop(Ok(had_task)) => RunActionView::Stop(Ok(*had_task)),
            RunAction::Stop(Err(error)) => RunActionView::Stop(Err(error@)),
        }
    }
}

/// Why the worker `worker_id` of the pool `pool_id` may not work on `task`, if
/// it may not.
pub open spec fn assignment_fault(
    worker_id: Seq<char>,
    pool_id: Seq<char>,
    task: TaskView,
) -> Option<WorkerErrorView> {
    match task.status {
        StatusView::Leased(lease) => if lease.owner_id != worker_id {
            Some(WorkerErrorView::InvalidAssignment("task lease belongs to another worker"@))
        } else if task.pool_id != pool_id {
            Some(WorkerErrorView::InvalidAssignment("task belongs to another pool"@))
        } else {
            None
        },
        _ => Some(
            WorkerErrorView::InvalidAssignment("orchestrator returned a task that was not leased"@),
        ),
    }
}

/// The renewal of the lease of `held` that the worker `worker_id` asks for.
pub open spec fn renewal_of(worker_id: Seq<char>, held: HeldView) -> RenewalView {
    RenewalView {
        task_id: held.task.id,
        worker_id,
        attempt: held.task.attempt.attempts_started,
        ownership_epoch: held.lease.ownership_epoch,
    }
}

/// The report on `held` with the outcome `outcome`.
pub open spec fn report_of(held: HeldView, outcome: OutcomeView) -> ResultView {
    ResultView {
        task_id: held.task.id,
        attempt: held.task.attempt.attempts_started,
        ownership_epoch: held.lease.ownership_epoch,
        outcome,
    }
}

/// What the end of an activity is reported as.
pub open spec fn outcome_of(executed: Result<Seq<u8>, Seq<char>>) -> OutcomeView {
    match executed {
        Ok(output) => OutcomeView::Succeeded(output),
        Err(message) => OutcomeView::Failed { message },
    }
}

/// Whether a run at `state` can be told `event`.
pub open spec fn is_due(state: RunStateView, event: RunEventView) -> bool {
    match state {
        RunStateView::Requesting => event is Assigned,
        RunStateView::Executing(_) => event is RenewalDue || event is Executed,
        RunStateView::Renewing(_) => event is Renewed,
        RunStateView::Reporting => event is Reported,
        RunStateView::Finished => false,
    }
}

/// Where a run at `state` goes, and what it wants done, when it is told
/// `event`. The worker `worker_id` of the pool `pool_id` can carry out the
/// activities `known`.
pub open spec fn next_of(
    worker_id: Seq<char>,
    pool_id: Seq<char>,
    known: Set<Seq<char>>,
    state: RunStateView,
    event: RunEventView,
) -> (RunStateView, RunActionView) {
    match (state, event) {
        (RunStateView::Requesting, RunEventView::Assigned(Ok(Some(task)))) => {
            match assignment_fault(worker_id, pool_id, task) {
                Some(fault) => (RunStateView::Finished, RunActionView::Stop(Err(fault))),
                None => {
                    let held = HeldView { task, lease: task.status->Leased_0 };
                    if known.contains(task.activity_type) {
                        (RunStateView::Executing(held), RunActionView::Execute)
                    } else {
                        (
                            RunStateView::Reporting,
                            RunActionView::Report(
                                report_of(
                                    held,
                                    OutcomeView::Failed {
                                        message: "activity type is not registered: "@
                                            + task.activity_type,
                                    },
                                ),
                            ),
                        )
                    }
                },
            }
        },
        (RunStateView::Requesting, RunEventView::Assigned(Ok(None))) => (
            RunStateView::Finished,
            RunActionView::Stop(Ok(false)),
        ),
        (RunStateView::Executing(held), RunEventView::RenewalDue) => (
            RunStateView::Renewing(held),
            RunActionView::Renew(renewal_of(worker_id, held)),
        ),
        (RunStateView::Executing(held), RunEventView::Executed(executed)) => (
            RunStateView::Reporting,
            RunActionView::Report(report_of(held, outcome_of(executed))),
        ),
        (RunStateView::Renewing(held), RunEventView::Renewed(Ok(()))) => (
            RunStateView::Executing(held),
            RunActionView::Wait,
        ),
        (RunStateView::Reporting, RunEventView::Reported(Ok(()))) => (
            RunStateView::Finished,
            RunActionView::Stop(Ok(true)),
        ),
        (_, RunEventView::Assigned(Err(message)))
        | (_, RunEventView::Renewed(Err(message)))
        | (_, RunEventView::Reported(Err(message))) => (
            RunStateView::Finished,
            RunActionView::Stop(Err(WorkerErrorView::Orchestrator(message))),
        ),
        _ => (RunStateView::Finished, RunActionView::Wait),
    }
}

/// What a loop of runs does after one of them.
pub enum SlotAction {
    /// Start the next run at once.
    RunAgain,
    /// Start the next run after a pause.
    Sleep(Duration),
    /// Stop the worker.
    Stop(WorkerError),
}

impl<A, O> Worker<A, O> {
    /// A worker with the given configuration, unless that lets it do nothing
    /// or leaves it without a pause.
    pub fn new(
        id: WorkerId,
        pool: PoolId,
        activities: ActivityRegistry<A>,
        orchestrator: O,
        config: WorkerConfig,
    ) -> (result: Result<Self, WorkerError>)
        ensures
            match result {
                Ok(worker) => {
                    &&& config.fault() is None
                    &&& worker.id == id
                    &&& worker.pool == pool
                    &&& worker.activities == activities
                    &&& worker.max_concurrency == config.max_concurrency
                    &&& worker.orchestrator == orchestrator
                    &&& worker.idle_poll_interval == config.idle_poll_interval
                    &&& worker.lease_renewal_interval == config.lease_renewal_interval
                },
                Err(error) => config.fault() matches Some(message) && error@
                    == WorkerErrorView::InvalidConfiguration(message),
            },
    {
        if config.max_concurrency == 0 {
            return Err(
                WorkerError::InvalidConfiguration(
                    "max_concurrency must be greater than zero".into(),
                ),
            );
        }
        if config.idle_poll_interval.is_zero() || config.lease_renewal_interval.is_zero() {
            return Err(
                WorkerError::InvalidConfiguration(
                    "poll and lease renewal intervals must be greater than zero".into(),
                ),
            );
        }
        Ok(
            Worker {
                id,
                pool,
                activities,
                max_concurrency: config.max_concurrency,
                orchestrator,
                idle_poll_interval: config.idle_poll_interval,
                lease_renewal_interval: config.lease_renewal_interval,
            },
        )
    }

    /// The start of a run: the question for a task.
    pub fn start_run(&self) -> (result: (RunState, RunAction))
        ensures
            result.0@ == RunStateView::Requesting,
            result.1@ == (RunActionView::Request { worker_id: self.id@, pool_id: self.pool@ }),
    {
        (
            RunState::Requesting,
            RunAction::Request { worker_id: self.id.clone(), pool_id: self.pool.clone() },
        )
    }

    /// One step of a run.
    pub fn advance(&self, state: RunState, event: RunEvent) -> (result: (RunState, RunAction))
        requires
            self.activities.wf(),
            is_due(state@, event@),
        ensures
            (result.0@, result.1@) == next_of(
                self.id@,
                self.pool@,
                self.activities@.dom(),
                state@,
                event@,
            ),
    {
        match (state, event) {
            (RunState::Requesting, RunEvent::Assigned(Ok(Some(assignment)))) => {
                self.accept_assignment(assignment)
            },
            (RunState::Requesting, RunEvent::Assigned(Ok(None))) => {
                (RunState::Finished, RunAction::Stop(Ok(false)))
            },
            (RunState::Executing(held), RunEvent::RenewalDue) => {
                let renewal = self.renewal(&held);
                (RunState::Renewing(held), RunAction::Renew(renewal))
            },
            (RunState::Executing(held), RunEvent::Executed(executed)) => {
                (
                    RunState::Reporting,
                    RunAction::Report(Self::report(held, Self::outcome(executed))),
                )
            },
            (RunState::Renewing(held), RunEvent::Renewed(Ok(()))) => {
                (RunState::Executing(held), RunAction::Wait)
            },
            (RunState::Reporting, RunEvent::Reported(Ok(()))) => {
                (RunState::Finished, RunAction::Stop(Ok(true)))
            },
            (_, RunEvent::Assigned(Err(error))) => {
                (RunState::Finished, RunAction::Stop(Err(WorkerError::Orchestrator(error))))
            },
            (_, RunEvent::Renewed(Err(error))) => {
                (RunState::Finished, RunAction::Stop(Err(WorkerError::Orchestrator(error))))
            },
            (_, RunEvent::Reported(Err(error))) => {
                (RunState::Finished, RunAction::Stop(Err(WorkerError::Orchestrator(error))))
            },
            _ => { (RunState::Finished, RunAction::Wait) },
        }
    }

    /// The answer to an assignment: a task that is leased to this worker in its
    /// pool is carried out, or reported as failed if nothing can carry it out;
    /// any other stops the worker.
    pub fn accept_assignment(&self, assignment: TaskAssignment) -> (result: (RunState, RunAction))
        requires
            self.activities.wf(),
        ensures
            (result.0@, result.1@) == next_of(
                self.id@,
                self.pool@,
                self.activities@.dom(),
                RunStateView::Requesting,
                RunEventView::Assigned(Ok(Some(assignment.task@))),
            ),
    {
        let lease = match &assignment.task.status {
            TaskStatus::Leased(lease) => lease.clone(),
            _ => {
                return Self::refuse("orchestrator returned a task that was not leased");
            },
        };
        if lease.owner_id.0 != self.id.0 {
            return Self::refuse("task lease belongs to another worker");
        }
        if assignment.task.pool_id.0 != self.pool.0 {
            return Self::refuse("task belongs to another pool");
        }
        let known = self.activities.get(&assignment.task.activity_type).is_some();
        let held = Held { task: assignment.task, lease };
        if known {
            (RunState::Executing(held), RunAction::Execute)
        } else {
            let error = ActivityError::new(
                String::from("activity type is not registered: ").concat(
                    held.task.activity_type.0.as_str(),
                ),
            );
            (
                RunState::Reporting,
                RunAction::Report(Self::report(held, Self::outcome(Err(error)))),
            )
        }
    }

    /// What is to be started for `held`: the activity for its type, the input
    /// that it gets, and the pause between two renewals of the lease.
    pub fn execution<'a>(&'a self, held: &'a Held) -> (result: (&'a A, &'a Vec<u8>, Duration))
        requires
            self.activities.wf(),
            self.activities@.contains_key(held@.task.activity_type),
        ensures
            *result.0 == self.activities@[held@.task.activity_type],
            result.1@ == held@.task.input,
            result.2 == self.lease_renewal_interval,
    {
        let activity = self.activities.get(&held.task.activity_type).unwrap();
        (activity, &held.task.input, self.lease_renewal_interval)
    }

    /// The end of a run over an assignment that the worker may not work on.
    fn refuse(reason: &str) -> (result: (RunState, RunAction))
        ensures
            result.0@ == RunStateView::Finished,
            result.1@ == RunActionView::Stop(
                Err(WorkerErrorView::InvalidAssignment(reason@)),
            ),
    {
        (RunState::Finished, RunAction::Stop(Err(WorkerError::InvalidAssignment(reason.into()))))
    }

    /// The renewal of the lease of `held`.
    fn renewal(&self, held: &Held) -> (result: LeaseRenewal)
        ensures
            result@ == renewal_of(self.id@, held@),
    {
        LeaseRenewal {
            task_id: held.task.id.clone(),
            worker_id: self.id.clone(),
            attempt: held.task.attempt.attempts_started,
            ownership_epoch: held.lease.ownership_epoch,
        }
    }

    /// What the end of an activity is reported as.
    fn outcome(executed: Result<Vec<u8>, ActivityError>) -> (result: TaskOutcome)
        ensures
            result@ == outcome_of(
                match executed {
                    Ok(output) => Ok(output@),
                    Err(error) => Err(error.message@),
                },
            ),
    {
        match executed {
            Ok(output) => TaskOutcome::Succeeded(output),
            Err(error) => TaskOutcome::Failed { message: error.message },
        }
    }

    /// The report on `held`.
    fn report(held: Held, outcome: TaskOutcome) -> (result: TaskResult)
        ensures
            result@ == report_of(held@, outcome@),
    {
        TaskResult {
            task_id: held.task.id,
            attempt: held.task.attempt.attempts_started,
            ownership_epoch: held.lease.ownership_epoch,
            outcome,
        }
    }

    /// What a loop of runs does after a run with the answer `answer`: the next
    /// run follows at once if there was a task, and after a pause if not.
    pub fn after_run(&self, answer: Result<bool, WorkerError>) -> (result: SlotAction)
        ensures
            match answer {
                Ok(true) => result is RunAgain,
                Ok(false) => result == SlotAction::Sleep(self.idle_poll_interval),
                Err(error) => result == SlotAction::Stop(error),
            },
    {
        match answer {
            Ok(true) => SlotAction::RunAgain,
            Ok(false) => SlotAction::Sleep(self.idle_poll_interval),
            Err(error) => SlotAction::Stop(error),
        }
    }

    /// The end of the worker, when the first of its loops is over: what that
    /// loop ended with, or how it broke off; a worker without loops ends well.
    pub fn after_first_loop(
        &self,
        ended: Option<Result<Result<(), WorkerError>, String>>,
    ) -> (result: Result<(), WorkerError>)
        ensures
            match ended {
                Some(Ok(answer)) => result == answer,
                Some(Err(reason)) => result == Err::<(), _>(WorkerError::WorkerLoop(reason)),
                None => result is Ok,
            },
    {
        match ended {
            Some(Ok(answer)) => answer,
            Some(Err(reason)) => Err(WorkerError::WorkerLoop(reason)),
            None => Ok(()),
        }
    }
}

} // verus!
