//! The things the executor works on: tenants, pools, tasks and leases.

pub mod laws;
mod lease;
mod pool;
mod task;
mod tenant;

pub use lease::{Lease, LeaseOwnerId, LeaseView};
pub use pool::{Pool, PoolId};
pub use task::{
    ActivityType, AttemptMetadata, AttemptView, LimitsView, RetryMetadata, StatusView, Task,
    TaskId, TaskLimits, TaskStatus, TaskView, WorkflowId,
};
pub use tenant::{Tenant, TenantId};
