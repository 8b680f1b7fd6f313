//! The statements that a store in PostgreSQL sends to the database. Each takes
//! its parameters from the fields of a row or a plan in the order in which the
//! comment names them.

use vstd::prelude::*;

verus! {

/// Answers if the database does.
pub const PROBE: &'static str = "SELECT 1";

/// Adds a task: the fields of a task row but for its state, which is that of a
/// task that waits.
pub const ADD_TASK: &'static str = "INSERT INTO platform.tasks (
    id, workflow_id, activity_type, input, state, pool_id, priority,
    available_at, execution_timeout_ms, retry_policy, current_attempt,
    created_at, deadline
) VALUES ($1, $2, $3, $4, 'ready', $5, $6, $7, $8, $9, $10, $11, $12)";

/// Finds and locks the next task of a pool that nobody else has locked: the
/// pool.
pub const FIND_READY_TASK: &'static str = "SELECT
    tasks.id, tasks.workflow_id, workflows.tenant_id, tasks.activity_type,
    tasks.input, tasks.pool_id, tasks.priority, tasks.created_at,
    tasks.deadline, tasks.execution_timeout_ms, tasks.retry_policy,
    tasks.current_attempt
 FROM platform.tasks AS tasks
 JOIN platform.workflows AS workflows ON workflows.id = tasks.workflow_id
 WHERE tasks.pool_id = $1
   AND tasks.state = 'ready'
   AND tasks.available_at <= NOW()
   AND tasks.deadline > NOW()
 ORDER BY tasks.priority DESC, tasks.created_at ASC, tasks.id ASC
 FOR UPDATE SKIP LOCKED
 LIMIT 1";

/// Makes a task leased: the task and the number of the attempt.
pub const LEASE_TASK: &'static str = "UPDATE platform.tasks
 SET state = 'leased', current_attempt = $2
 WHERE id = $1";

/// Adds an attempt: its fields.
pub const ADD_ATTEMPT: &'static str = "INSERT INTO platform.task_attempts (
    id, task_id, attempt_number, worker_id, ownership_epoch,
    lease_expiry, started_at
 ) VALUES ($1, $2, $3, $4, $5, $6, $7)";

/// Finds and locks the attempt that is under way for a worker at a leased task:
/// the task, the worker and the epoch.
pub const FIND_ACTIVE_ATTEMPT: &'static str = "SELECT tasks.deadline, tasks.execution_timeout_ms,
        tasks.retry_policy, attempts.lease_expiry
 FROM platform.tasks AS tasks
 JOIN platform.task_attempts AS attempts ON attempts.task_id = tasks.id
 WHERE tasks.id = $1
   AND tasks.state = 'leased'
   AND attempts.worker_id = $2
   AND attempts.ownership_epoch = $3
   AND attempts.finished_at IS NULL
 FOR UPDATE";

/// Extends a lease: the task, the worker, the epoch and the new expiry.
pub const RENEW_ATTEMPT: &'static str = "UPDATE platform.task_attempts
 SET lease_expiry = $4
 WHERE task_id = $1
   AND worker_id = $2
   AND ownership_epoch = $3
   AND finished_at IS NULL";

/// Ends a task: the task and its state.
pub const FINISH_TASK: &'static str = "UPDATE platform.tasks SET state = $2 WHERE id = $1";

/// Ends the attempt of a worker: the task, the worker, the epoch, the time, the
/// state and the error.
pub const FINISH_ATTEMPT: &'static str = "UPDATE platform.task_attempts
 SET finished_at = $4, outcome = $5, error = $6
 WHERE task_id = $1
   AND worker_id = $2
   AND ownership_epoch = $3
   AND finished_at IS NULL";

/// Lets a task wait again, or ends it: the task, its state, the time from which
/// on it is available and its retry policy.
pub const RETRY_TASK: &'static str = "UPDATE platform.tasks
 SET state = $2, available_at = $3, retry_policy = $4
 WHERE id = $1";

/// Ends the attempt that is under way at a task: the task, the time, the state
/// and the error.
pub const END_ATTEMPT: &'static str = "UPDATE platform.task_attempts
 SET finished_at = $2, outcome = $3, error = $4
 WHERE task_id = $1 AND finished_at IS NULL";

/// Finds and locks the leased tasks that have run out of time and that nobody
/// else has locked: the time.
pub const FIND_EXPIRED_TASKS: &'static str = "SELECT tasks.id, tasks.deadline,
        tasks.execution_timeout_ms, tasks.retry_policy, attempts.lease_expiry
 FROM platform.tasks AS tasks
 JOIN platform.task_attempts AS attempts ON attempts.task_id = tasks.id
 WHERE tasks.state = 'leased'
   AND attempts.finished_at IS NULL
   AND (attempts.lease_expiry <= $1 OR tasks.deadline <= $1)
 FOR UPDATE SKIP LOCKED";

/// Ends the tasks that wait past their deadline: the time.
pub const GIVE_UP_TASKS: &'static str = "UPDATE platform.tasks
 SET state = 'failed'
 WHERE state = 'ready' AND deadline <= $1";

/// Adds an event: its fields.
pub const ADD_EVENT: &'static str = "INSERT INTO platform.task_events
    (id, task_id, event_type, timestamp, details)
 VALUES ($1, $2, $3, $4, $5)";

} // verus!
