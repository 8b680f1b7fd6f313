use platform_09_26::domain::{
    ActivityType, AttemptMetadata, Lease, LeaseOwnerId, Pool, PoolId, RetryMetadata, Task, TaskId,
    TaskLimits, TaskStatus, Tenant, TenantId, WorkflowId,
};
use platform_09_26::time::{Duration, SystemTime};

fn at(secs: i64) -> SystemTime {
    SystemTime::from_parts(secs, 0)
}

fn task_with_status(status: TaskStatus) -> Task {
    Task {
        id: TaskId("task-1".into()),
        tenant_id: TenantId("tenant-1".into()),
        pool_id: PoolId("shared".into()),
        activity_type: ActivityType("send-email".into()),
        input: br#"{"recipient":"user@example.com"}"#.to_vec(),
        workflow_id: Some(WorkflowId("workflow-1".into())),
        priority: 10,
        created_at: SystemTime::unix_epoch(),
        limits: TaskLimits {
            max_execution_time: Duration::from_secs(30),
            deadline: at(120),
        },
        retry: RetryMetadata {
            retry_count: 1,
            max_retries: 3,
        },
        attempt: AttemptMetadata {
            attempts_started: 2,
            last_attempt_at: Some(SystemTime::unix_epoch()),
        },
        status,
    }
}

#[test]
fn pending_task_has_one_tenant_and_an_expiry() {
    let expires_at = SystemTime::unix_epoch()
        .checked_add(Duration::from_secs(60))
        .unwrap();
    let task = task_with_status(TaskStatus::Pending { expires_at });

    assert_eq!(task.tenant_id, TenantId("tenant-1".into()));
    assert!(matches!(
        task.status,
        TaskStatus::Pending { expires_at: value } if value == expires_at
    ));
}

#[test]
fn leased_task_has_one_owner_and_consistent_attempt_metadata() {
    let leased_at = SystemTime::unix_epoch();
    let expires_at = leased_at.checked_add(Duration::from_secs(30)).unwrap();
    let task = task_with_status(TaskStatus::Leased(Lease {
        owner_id: LeaseOwnerId("worker-1".into()),
        ownership_epoch: 4,
        leased_at,
        expires_at,
    }));

    assert_eq!(task.attempt.attempts_started, 2);
    assert_eq!(task.retry.retry_count, 1);
    assert!(matches!(
        task.status,
        TaskStatus::Leased(Lease { owner_id, expires_at: value, .. })
            if owner_id == LeaseOwnerId("worker-1".into()) && value == expires_at
    ));
}

#[test]
fn completed_task_records_when_it_completed() {
    let completed_at = SystemTime::unix_epoch()
        .checked_add(Duration::from_secs(90))
        .unwrap();
    let task = task_with_status(TaskStatus::Completed { completed_at });

    assert!(matches!(
        task.status,
        TaskStatus::Completed { completed_at: value } if value == completed_at
    ));
}

#[test]
fn a_copy_of_a_task_is_equal_to_it() {
    let statuses = vec![
        TaskStatus::Pending { expires_at: at(1) },
        TaskStatus::Leased(Lease {
            owner_id: LeaseOwnerId("worker-1".into()),
            ownership_epoch: 4,
            leased_at: at(1),
            expires_at: at(2),
        }),
        TaskStatus::Completed { completed_at: at(3) },
        TaskStatus::Failed {
            failed_at: at(4),
            message: "gone".into(),
        },
    ];
    for status in statuses {
        let task = task_with_status(status);
        assert_eq!(task.clone(), task);
    }
}

#[test]
fn pools_and_tenants_are_equal_to_their_copies() {
    let pool = Pool {
        id: PoolId("shared".into()),
        name: "the shared pool".into(),
    };
    assert_eq!(pool.clone(), pool);
    let tenant = Tenant {
        id: TenantId("tenant-1".into()),
        pool_id: PoolId("shared".into()),
        ownership_epoch: 3,
    };
    assert_eq!(tenant.clone(), tenant);
    assert_eq!(tenant.pool_id, pool.id);
}
