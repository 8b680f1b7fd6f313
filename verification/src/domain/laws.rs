//! Tasks are seen as they are: nothing that they hold is lost or mixed up in how
//! contracts speak of them.

use vstd::prelude::*;

use super::{Lease, LeaseView, StatusView, Task, TaskStatus};
use crate::storage::{StoreErrorView, TaskStoreError};

verus! {

/// A lease is seen as it is.
pub proof fn lease_is_seen_as_it_is(lease: Lease)
    ensures
        lease@.owner_id == lease.owner_id.0@,
        lease@.ownership_epoch == lease.ownership_epoch,
        lease@.leased_at == lease.leased_at@,
        lease@.expires_at == lease.expires_at@,
{
}

/// A status is seen as it is.
pub proof fn status_is_seen_as_it_is(status: TaskStatus)
    ensures
        match status {
            TaskStatus::Pending { expires_at } => status@ == (StatusView::Pending {
                expires_at: expires_at@,
            }),
            TaskStatus::Leased(lease) => status@ == StatusView::Leased(
                LeaseView {
                    owner_id: lease.owner_id.0@,
                    ownership_epoch: lease.ownership_epoch,
                    leased_at: lease.leased_at@,
                    expires_at: lease.expires_at@,
                },
            ),
            TaskStatus::Completed { completed_at } => status@ == (StatusView::Completed {
                completed_at: completed_at@,
            }),
            TaskStatus::Failed { failed_at, message } => status@ == (StatusView::Failed {
                failed_at: failed_at@,
                message: message@,
            }),
        },
{
}

/// A task is seen as it is.
pub proof fn task_is_seen_as_it_is(task: Task)
    ensures
        task@.id == task.id.0@,
        task@.tenant_id == task.tenant_id.0@,
        task@.pool_id == task.pool_id.0@,
        task@.activity_type == task.activity_type.0@,
        task@.input == task.input@,
        task@.workflow_id is Some == task.workflow_id is Some,
        task.workflow_id matches Some(workflow_id) ==> task@.workflow_id == Some(workflow_id.0@),
        task@.priority == task.priority,
        task@.created_at == task.created_at@,
        task@.limits.max_execution_time == task.limits.max_execution_time@,
        task@.limits.deadline == task.limits.deadline@,
        task@.retry == task.retry,
        task@.attempt.attempts_started == task.attempt.attempts_started,
        task@.attempt.last_attempt_at is Some == task.attempt.last_attempt_at is Some,
        task.attempt.last_attempt_at matches Some(at) ==> task@.attempt.last_attempt_at == Some(
            at@,
        ),
        task@.status == task.status@,
{
}

/// An error of a store is seen as it is.
pub proof fn store_error_is_seen_as_it_is(error: TaskStoreError)
    ensures
        match error {
            TaskStoreError::DuplicateTask(id) => error@ == StoreErrorView::DuplicateTask(id.0@),
            TaskStoreError::TaskNotFound(id) => error@ == StoreErrorView::TaskNotFound(id.0@),
            TaskStoreError::InvalidTask(reason) => error@ == StoreErrorView::InvalidTask(reason@),
            TaskStoreError::InvalidLease(reason) => error@ == StoreErrorView::InvalidLease(reason@),
            TaskStoreError::LeaseExpired => error@ is LeaseExpired,
            TaskStoreError::Unavailable => error@ is Unavailable,
        },
{
}

} // verus!
