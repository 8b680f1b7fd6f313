//! Tasks.

use vstd::prelude::*;

use super::{Lease, LeaseView, PoolId, TenantId};
use crate::time::{Duration, SystemTime};

verus! {

/// The identity of a task.
#[derive(Debug, PartialEq, Eq, Hash, PartialOrd, Ord)]
pub struct TaskId(pub String);

impl View for TaskId {
    type V = Seq<char>;

    open spec fn view(&self) -> Seq<char> {
        self.0@
    }
}

impl Clone for TaskId {
    fn clone(&self) -> (result: Self)
        ensures
            result@ == self@,
    {
        TaskId(self.0.clone())
    }
}

/// The kind of work that a task asks for.
#[derive(Debug, PartialEq, Eq, Hash)]
pub struct ActivityType(pub String);

impl View for ActivityType {
    type V = Seq<char>;

    open spec fn view(&self) -> Seq<char> {
        self.0@
    }
}

impl Clone for ActivityType {
    fn clone(&self) -> (result: Self)
        ensures
            result@ == self@,
    {
        ActivityType(self.0.clone())
    }
}

/// The identity of a workflow.
#[derive(Debug, PartialEq, Eq, Hash)]
pub struct WorkflowId(pub String);

impl View for WorkflowId {
    type V = Seq<char>;

    open spec fn view(&self) -> Seq<char> {
        self.0@
    }
}

impl Clone for WorkflowId {
    fn clone(&self) -> (result: Self)
        ensures
            result@ == self@,
    {
        WorkflowId(self.0.clone())
    }
}

/// How often a task was retried, and how often it may be.
#[derive(Clone, Copy, Debug, PartialEq, Eq)]
pub struct RetryMetadata {
    /// How often the task went back to the queue.
    pub retry_count: u32,
    /// How often it may go back.
    pub max_retries: u32,
}

/// How often work on a task was started, and when last.
#[derive(Clone, Copy, Debug, PartialEq, Eq)]
pub struct AttemptMetadata {
    /// How often work was started.
    pub attempts_started: u32,
    /// When it was started last.
    pub last_attempt_at: Option<SystemTime>,
}

/// What [`AttemptMetadata`] says.
pub struct AttemptView {
    pub attempts_started: u32,
    pub last_attempt_at: Option<int>,
}

impl View for AttemptMetadata {
    type V = AttemptView;

    open spec fn view(&self) -> AttemptView {
        AttemptView {
            attempts_started: self.attempts_started,
            last_attempt_at: match self.last_attempt_at {
                Some(at) => Some(at@),
                None => None,
            },
        }
    }
}

/// How long work on a task may take.
#[derive(Clone, Copy, Debug, PartialEq, Eq)]
pub struct TaskLimits {
    /// How long one attempt may take before its lease has to be renewed.
    pub max_execution_time: Duration,
    /// When the task has to be done.
    pub deadline: SystemTime,
}

/// What [`TaskLimits`] say.
pub struct LimitsView {
    pub max_execution_time: nat,
    pub deadline: int,
}

impl View for TaskLimits {
    type V = LimitsView;

    open spec fn view(&self) -> LimitsView {
        LimitsView { max_execution_time: self.max_execution_time@, deadline: self.deadline@ }
    }
}

/// Where a task stands.
#[derive(Debug, PartialEq, Eq)]
pub enum TaskStatus {
    /// It waits for a worker.
    Pending {
        /// Until when it waits.
        expires_at: SystemTime,
    },
    /// A worker has it.
    Leased(Lease),
    /// It was done.
    Completed {
        /// When it was done.
        completed_at: SystemTime,
    },
    /// It was given up.
    Failed {
        /// When it was given up.
        failed_at: SystemTime,
        /// Why it was given up.
        message: String,
    },
}

/// What a [`TaskStatus`] says.
pub enum StatusView {
    Pending { expires_at: int },
    Leased(LeaseView),
    Completed { completed_at: int },
    Failed { failed_at: int, message: Seq<char> },
}

impl View for TaskStatus {
    type V = StatusView;

    open spec fn view(&self) -> StatusView {
        match self {
            TaskStatus::Pending { expires_at } => StatusView::Pending { expires_at: expires_at@ },
            TaskStatus::Leased(lease) => StatusView::Leased(lease@),
            TaskStatus::Completed { completed_at } => StatusView::Completed {
                completed_at: completed_at@,
            },
            TaskStatus::Failed { failed_at, message } => StatusView::Failed {
                failed_at: failed_at@,
                message: message@,
            },
        }
    }
}

impl Clone for TaskStatus {
    fn clone(&self) -> (result: Self)
        ensures
            result@ == self@,
    {
        match self {
            TaskStatus::Pending { expires_at } => TaskStatus::Pending { expires_at: *expires_at },
            TaskStatus::Leased(lease) => TaskStatus::Leased(lease.clone()),
            TaskStatus::Completed { completed_at } => TaskStatus::Completed {
                completed_at: *completed_at,
            },
            TaskStatus::Failed { failed_at, message } => TaskStatus::Failed {
                failed_at: *failed_at,
                message: message.clone(),
            },
        }
    }
}

/// A piece of work for one activity, with all that is known of how it went so
/// far.
#[derive(Debug, PartialEq, Eq)]
pub struct Task {
    /// Its identity.
    pub id: TaskId,
    /// The tenant it belongs to.
    pub tenant_id: TenantId,
    /// The pool whose workers may take it.
    pub pool_id: PoolId,
    /// The activity it is for.
    pub activity_type: ActivityType,
    /// What the activity gets to work on.
    pub input: Vec<u8>,
    /// The workflow it is a step of, if it is one.
    pub workflow_id: Option<WorkflowId>,
    /// How urgent it is; the higher, the sooner.
    pub priority: i32,
    /// When it was made.
    pub created_at: SystemTime,
    /// How long it may take.
    pub limits: TaskLimits,
    /// How often it was retried.
    pub retry: RetryMetadata,
    /// How often it was started.
    pub attempt: AttemptMetadata,
    /// Where it stands.
    pub status: TaskStatus,
}

/// What a [`Task`] says.
pub struct TaskView {
    pub id: Seq<char>,
    pub tenant_id: Seq<char>,
    pub pool_id: Seq<char>,
    pub activity_type: Seq<char>,
    pub input: Seq<u8>,
    pub workflow_id: Option<Seq<char>>,
    pub priority: i32,
    pub created_at: int,
    pub limits: LimitsView,
    pub retry: RetryMetadata,
    pub attempt: AttemptView,
    pub status: StatusView,
}

impl View for Task {
    type V = TaskView;

    open spec fn view(&self) -> TaskView {
        TaskView {
            id: self.id@,
            tenant_id: self.tenant_id@,
            pool_id: self.pool_id@,
            activity_type: self.activity_type@,
            input: self.input@,
            workflow_id: match self.workflow_id {
                Some(workflow_id) => Some(workflow_id@),
                None => None,
            },
            priority: self.priority,
            created_at: self.created_at@,
            limits: self.limits@,
            retry: self.retry,
            attempt: self.attempt@,
            status: self.status@,
        }
    }
}

impl Clone for Task {
    fn clone(&self) -> (result: Self)
        ensures
            result@ == self@,
    {
        let workflow_id: Option<WorkflowId> = match &self.workflow_id {
            Some(workflow_id) => Some(workflow_id.clone()),
            None => None,
        };
        let input: Vec<u8> = self.input.clone();
        assert(input@ =~= self.input@);
        Task {
            id: self.id.clone(),
            tenant_id: self.tenant_id.clone(),
            pool_id: self.pool_id.clone(),
            activity_type: self.activity_type.clone(),
            input,
            workflow_id,
            priority: self.priority,
            created_at: self.created_at,
            limits: self.limits,
            retry: self.retry,
            attempt: self.attempt,
            status: self.status.clone(),
        }
    }
}

} // verus!
