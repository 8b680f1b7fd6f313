//! What a worker and the orchestrator say to each other.

use vstd::prelude::*;

use crate::domain::{Task, TaskId};
use crate::worker::WorkerId;

verus! {

/// A task that the orchestrator gives to a worker.
#[derive(Debug, PartialEq, Eq)]
pub struct TaskAssignment {
    /// The task, leased to the worker.
    pub task: Task,
}

impl Clone for TaskAssignment {
    fn clone(&self) -> (result: Self)
        ensures
            result.task@ == self.task@,
    {
        TaskAssignment { task: self.task.clone() }
    }
}

/// A worker's request to extend a lease.
#[derive(Debug, PartialEq, Eq)]
pub struct LeaseRenewal {
    /// The task that is leased.
    pub task_id: TaskId,
    /// The worker that holds the lease.
    pub worker_id: WorkerId,
    /// The attempt that the worker is at.
    pub attempt: u32,
    /// The epoch under which the lease was granted.
    pub ownership_epoch: u64,
}

/// What a [`LeaseRenewal`] says.
pub struct RenewalView {
    pub task_id: Seq<char>,
    pub worker_id: Seq<char>,
    pub attempt: u32,
    pub ownership_epoch: u64,
}

impl View for LeaseRenewal {
    type V = RenewalView;

    open spec fn view(&self) -> RenewalView {
        RenewalView {
            task_id: self.task_id@,
            worker_id: self.worker_id@,
            attempt: self.attempt,
            ownership_epoch: self.ownership_epoch,
        }
    }
}

impl Clone for LeaseRenewal {
    fn clone(&self) -> (result: Self)
        ensures
            result@ == self@,
    {
        LeaseRenewal {
            task_id: self.task_id.clone(),
            worker_id: self.worker_id.clone(),
            attempt: self.attempt,
            ownership_epoch: self.ownership_epoch,
        }
    }
}

/// How an attempt went.
#[derive(Debug, PartialEq, Eq)]
pub enum TaskOutcome {
    /// The activity gave this output.
    Succeeded(Vec<u8>),
    /// There is no output.
    Failed {
        /// Why there is none.
        message: String,
    },
}

/// What a [`TaskOutcome`] says.
pub enum OutcomeView {
    Succeeded(Seq<u8>),
    Failed { message: Seq<char> },
}

impl View for TaskOutcome {
    type V = OutcomeView;

    open spec fn view(&self) -> OutcomeView {
        match self {
            TaskOutcome::Succeeded(output) => OutcomeView::Succeeded(output@),
            TaskOutcome::Failed { message } => OutcomeView::Failed { message: message@ },
        }
    }
}

impl Clone for TaskOutcome {
    fn clone(&self) -> (result: Self)
        ensures
            result@ == self@,
    {
        match self {
            TaskOutcome::Succeeded(output) => {
                let copy: Vec<u8> = output.clone();
                assert(copy@ =~= output@);
                TaskOutcome::Succeeded(copy)
            },
            TaskOutcome::Failed { message } => TaskOutcome::Failed { message: message.clone() },
        }
    }
}

/// A worker's report on an attempt.
#[derive(Debug, PartialEq, Eq)]
pub struct TaskResult {
    /// The task that was worked on.
    pub task_id: TaskId,
    /// The attempt that was made.
    pub attempt: u32,
    /// The epoch under which the task was leased.
    pub ownership_epoch: u64,
    /// How the attempt went.
    pub outcome: TaskOutcome,
}

/// What a [`TaskResult`] says.
pub struct ResultView {
    pub task_id: Seq<char>,
    pub attempt: u32,
    pub ownership_epoch: u64,
    pub outcome: OutcomeView,
}

impl View for TaskResult {
    type V = ResultView;

    open spec fn view(&self) -> ResultView {
        ResultView {
            task_id: self.task_id@,
            attempt: self.attempt,
            ownership_epoch: self.ownership_epoch,
            outcome: self.outcome@,
        }
    }
}

impl Clone for TaskResult {
    fn clone(&self) -> (result: Self)
        ensures
            result@ == self@,
    {
        TaskResult {
            task_id: self.task_id.clone(),
            attempt: self.attempt,
            ownership_epoch: self.ownership_epoch,
            outcome: self.outcome.clone(),
        }
    }
}

/// Why the orchestrator could not be asked.
#[derive(Debug, PartialEq, Eq)]
pub struct OrchestratorClientError {
    /// The reason in words.
    pub message: String,
}

impl OrchestratorClientError {
    /// An error with the reason `message`.
    pub fn new<M: Into<String>>(message: M) -> (result: Self)
        ensures
            call_ensures(<M as Into<String>>::into, (message,), result.message),
    {
        OrchestratorClientError { message: message.into() }
    }

    /// The error in words.
    pub fn describe(&self) -> (result: String)
        ensures
            result@ == self.message@,
    {
        self.message.clone()
    }
}

impl Clone for OrchestratorClientError {
    fn clone(&self) -> (result: Self)
        ensures
            result.message@ == self.message@,
    {
        OrchestratorClientError { message: self.message.clone() }
    }
}

} // verus!
