use std::sync::Arc;

use platform_09_26::domain::{
    ActivityType, AttemptMetadata, Lease, LeaseOwnerId, PoolId, RetryMetadata, Task, TaskId,
    TaskLimits, TaskStatus, TenantId,
};
use platform_09_26::time::{Duration, SystemTime};
use platform_09_26::transport::{
    LeaseRenewal, OrchestratorClientError, TaskAssignment, TaskOutcome, TaskResult,
};
use platform_09_26::worker::{
    ActivityError, ActivityRegistry, RunAction, RunEvent, RunState, SlotAction, Worker,
    WorkerConfig, WorkerError, WorkerId,
};

trait Activity {
    fn takes(&self) -> u64;
    fn execute(&self, input: &[u8]) -> Result<Vec<u8>, ActivityError>;
}

struct EchoActivity;

impl Activity for EchoActivity {
    fn takes(&self) -> u64 {
        3
    }

    fn execute(&self, input: &[u8]) -> Result<Vec<u8>, ActivityError> {
        Ok(input.to_vec())
    }
}

struct BrokenActivity;

impl Activity for BrokenActivity {
    fn takes(&self) -> u64 {
        0
    }

    fn execute(&self, _input: &[u8]) -> Result<Vec<u8>, ActivityError> {
        Err(ActivityError::new("out of order"))
    }
}

#[derive(Default)]
struct FakeOrchestrator {
    assignment: Option<TaskAssignment>,
    refuses_renewals: bool,
    refuses_results: bool,
    requests: Vec<(WorkerId, PoolId)>,
    renewals: Vec<LeaseRenewal>,
    results: Vec<TaskResult>,
}

type TestWorker = Worker<Arc<dyn Activity>, &'static str>;

fn leased_task() -> Task {
    Task {
        id: TaskId("task-1".into()),
        tenant_id: TenantId("tenant-1".into()),
        pool_id: PoolId("shared".into()),
        activity_type: ActivityType("echo".into()),
        input: b"hello".to_vec(),
        workflow_id: None,
        priority: 10,
        created_at: SystemTime::unix_epoch(),
        limits: TaskLimits {
            max_execution_time: Duration::from_secs(10),
            deadline: SystemTime::from_parts(60, 0),
        },
        retry: RetryMetadata {
            retry_count: 0,
            max_retries: 3,
        },
        attempt: AttemptMetadata {
            attempts_started: 1,
            last_attempt_at: Some(SystemTime::unix_epoch()),
        },
        status: TaskStatus::Leased(Lease {
            owner_id: LeaseOwnerId("worker-1".into()),
            ownership_epoch: 7,
            leased_at: SystemTime::unix_epoch(),
            expires_at: SystemTime::from_parts(10, 0),
        }),
    }
}

fn config() -> WorkerConfig {
    WorkerConfig {
        max_concurrency: 1,
        idle_poll_interval: Duration::from_secs(1),
        lease_renewal_interval: Duration::from_secs(1),
    }
}

fn echo_worker() -> TestWorker {
    let mut activities: ActivityRegistry<Arc<dyn Activity>> = ActivityRegistry::default();
    activities.register(ActivityType("echo".into()), Arc::new(EchoActivity));
    activities.register(ActivityType("broken".into()), Arc::new(BrokenActivity));
    Worker::new(
        WorkerId("worker-1".into()),
        PoolId("shared".into()),
        activities,
        "orchestrator",
        config(),
    )
    .unwrap()
}

/// One run against `orchestrator`, on a clock that counts seconds.
fn run_once(
    worker: &TestWorker,
    orchestrator: &mut FakeOrchestrator,
) -> Result<bool, WorkerError> {
    let interval = worker.lease_renewal_interval.parts().0;
    let mut time_left = 0;
    let mut next_renewal = interval;
    let (mut state, mut action) = worker.start_run();
    loop {
        let event = match action {
            RunAction::Request { worker_id, pool_id } => {
                orchestrator.requests.push((worker_id, pool_id));
                RunEvent::Assigned(Ok(orchestrator.assignment.take()))
            }
            RunAction::Execute | RunAction::Wait => {
                let RunState::Executing(held) = &state else {
                    panic!("only a run that executes waits");
                };
                assert!(worker.activities.get(&held.task.activity_type).is_some());
                let (activity, input, _) = worker.execution(held);
                if matches!(action, RunAction::Execute) {
                    time_left = activity.takes();
                }
                if time_left <= next_renewal {
                    RunEvent::Executed(activity.execute(input))
                } else {
                    time_left -= next_renewal;
                    next_renewal = interval;
                    RunEvent::RenewalDue
                }
            }
            RunAction::Renew(renewal) => {
                orchestrator.renewals.push(renewal);
                RunEvent::Renewed(if orchestrator.refuses_renewals {
                    Err(OrchestratorClientError::new("no renewals today"))
                } else {
                    Ok(())
                })
            }
            RunAction::Report(result) => {
                orchestrator.results.push(result);
                RunEvent::Reported(if orchestrator.refuses_results {
                    Err(OrchestratorClientError::new("no results today"))
                } else {
                    Ok(())
                })
            }
            RunAction::Stop(answer) => return answer,
        };
        (state, action) = worker.advance(state, event);
    }
}

#[test]
fn worker_renews_the_lease_and_reports_the_result() {
    let mut orchestrator = FakeOrchestrator {
        assignment: Some(TaskAssignment {
            task: leased_task(),
        }),
        ..FakeOrchestrator::default()
    };

    let mut activities: ActivityRegistry<Arc<dyn Activity>> = ActivityRegistry::default();
    activities.register(ActivityType("echo".into()), Arc::new(EchoActivity));

    let worker = Worker::new(
        WorkerId("worker-1".into()),
        PoolId("shared".into()),
        activities,
        "orchestrator",
        WorkerConfig {
            max_concurrency: 1,
            idle_poll_interval: Duration::from_secs(1),
            lease_renewal_interval: Duration::from_secs(1),
        },
    )
    .unwrap();

    assert!(run_once(&worker, &mut orchestrator).unwrap());

    let renewals = &orchestrator.renewals;
    assert!(!renewals.is_empty());
    assert!(renewals.iter().all(|renewal| {
        renewal.task_id == TaskId("task-1".into())
            && renewal.worker_id == WorkerId("worker-1".into())
            && renewal.attempt == 1
            && renewal.ownership_epoch == 7
    }));

    let results = &orchestrator.results;
    assert_eq!(results.len(), 1);
    assert_eq!(results[0].task_id, TaskId("task-1".into()));
    assert_eq!(results[0].attempt, 1);
    assert_eq!(results[0].ownership_epoch, 7);
    assert_eq!(
        results[0].outcome,
        TaskOutcome::Succeeded(b"hello".to_vec())
    );
}

#[test]
fn the_lease_is_renewed_as_often_as_the_interval_passes() {
    let mut orchestrator = FakeOrchestrator {
        assignment: Some(TaskAssignment {
            task: leased_task(),
        }),
        ..FakeOrchestrator::default()
    };
    assert!(run_once(&echo_worker(), &mut orchestrator).unwrap());
    assert_eq!(orchestrator.renewals.len(), 2);
    assert_eq!(orchestrator.results.len(), 1);
}

#[test]
fn the_activity_of_the_task_is_executed_on_its_input() {
    let mut activities: ActivityRegistry<u8> = ActivityRegistry::new();
    activities.register(ActivityType("other".into()), 1);
    activities.register(ActivityType("echo".into()), 2);
    let worker = Worker::new(
        WorkerId("worker-1".into()),
        PoolId("shared".into()),
        activities,
        "orchestrator",
        config(),
    )
    .unwrap();
    let (state, _) = worker.accept_assignment(TaskAssignment {
        task: leased_task(),
    });
    let RunState::Executing(held) = state else {
        panic!("the task should be executed");
    };
    let (activity, input, interval) = worker.execution(&held);
    assert_eq!(*activity, 2);
    assert_eq!(*input, b"hello".to_vec());
    assert_eq!(interval, Duration::from_secs(1));
}

#[test]
fn a_worker_asks_for_itself_and_its_pool() {
    let mut orchestrator = FakeOrchestrator::default();
    assert!(!run_once(&echo_worker(), &mut orchestrator).unwrap());
    assert_eq!(
        orchestrator.requests,
        vec![(WorkerId("worker-1".into()), PoolId("shared".into()))]
    );
    assert!(orchestrator.renewals.is_empty());
    assert!(orchestrator.results.is_empty());
}

#[test]
fn a_failed_activity_is_reported_with_its_reason() {
    let mut task = leased_task();
    task.activity_type = ActivityType("broken".into());
    let mut orchestrator = FakeOrchestrator {
        assignment: Some(TaskAssignment { task }),
        ..FakeOrchestrator::default()
    };
    assert!(run_once(&echo_worker(), &mut orchestrator).unwrap());
    assert!(orchestrator.renewals.is_empty());
    assert_eq!(
        orchestrator.results,
        vec![TaskResult {
            task_id: TaskId("task-1".into()),
            attempt: 1,
            ownership_epoch: 7,
            outcome: TaskOutcome::Failed {
                message: "out of order".into()
            },
        }]
    );
}

#[test]
fn an_unknown_activity_is_reported_as_failed() {
    let mut task = leased_task();
    task.activity_type = ActivityType("dance".into());
    let mut orchestrator = FakeOrchestrator {
        assignment: Some(TaskAssignment { task }),
        ..FakeOrchestrator::default()
    };
    assert!(run_once(&echo_worker(), &mut orchestrator).unwrap());
    assert_eq!(
        orchestrator.results[0].outcome,
        TaskOutcome::Failed {
            message: "activity type is not registered: dance".into()
        }
    );
}

fn answer_to(task: Task) -> (String, usize) {
    let mut orchestrator = FakeOrchestrator {
        assignment: Some(TaskAssignment { task }),
        ..FakeOrchestrator::default()
    };
    match run_once(&echo_worker(), &mut orchestrator) {
        Err(WorkerError::InvalidAssignment(message)) => (message, orchestrator.results.len()),
        _ => panic!("the assignment should be refused"),
    }
}

#[test]
fn an_assignment_that_is_not_for_the_worker_is_refused() {
    let mut pending = leased_task();
    pending.status = TaskStatus::Pending {
        expires_at: SystemTime::from_parts(60, 0),
    };
    assert_eq!(
        answer_to(pending),
        (
            "orchestrator returned a task that was not leased".into(),
            0
        )
    );

    let mut foreign = leased_task();
    foreign.pool_id = PoolId("elsewhere".into());
    if let TaskStatus::Leased(lease) = &mut foreign.status {
        lease.owner_id = LeaseOwnerId("worker-2".into());
    }
    assert_eq!(
        answer_to(foreign),
        ("task lease belongs to another worker".into(), 0)
    );

    let mut misplaced = leased_task();
    misplaced.pool_id = PoolId("elsewhere".into());
    assert_eq!(
        answer_to(misplaced),
        ("task belongs to another pool".into(), 0)
    );
}

#[test]
fn an_error_of_the_orchestrator_ends_the_run() {
    let worker = echo_worker();
    let (state, _) = worker.start_run();
    let (_, action) = worker.advance(
        state,
        RunEvent::Assigned(Err(OrchestratorClientError::new("unreachable"))),
    );
    match action {
        RunAction::Stop(Err(WorkerError::Orchestrator(error))) => {
            assert_eq!(error, OrchestratorClientError::new("unreachable"));
        }
        _ => panic!("the run should end"),
    }

    let mut orchestrator = FakeOrchestrator {
        assignment: Some(TaskAssignment {
            task: leased_task(),
        }),
        refuses_renewals: true,
        ..FakeOrchestrator::default()
    };
    let error = run_once(&worker, &mut orchestrator).unwrap_err();
    assert_eq!(
        error.describe(),
        "orchestrator request failed: no renewals today"
    );
    assert_eq!(orchestrator.renewals.len(), 1);
    assert!(orchestrator.results.is_empty());

    let mut orchestrator = FakeOrchestrator {
        assignment: Some(TaskAssignment {
            task: leased_task(),
        }),
        refuses_results: true,
        ..FakeOrchestrator::default()
    };
    let error = run_once(&worker, &mut orchestrator).unwrap_err();
    assert_eq!(
        error.describe(),
        "orchestrator request failed: no results today"
    );
    assert_eq!(orchestrator.results.len(), 1);
}

#[test]
fn a_worker_pauses_only_when_there_was_no_task() {
    let worker = echo_worker();
    assert!(matches!(worker.after_run(Ok(true)), SlotAction::RunAgain));
    assert!(matches!(
        worker.after_run(Ok(false)),
        SlotAction::Sleep(pause) if pause == Duration::from_secs(1)
    ));
    assert!(matches!(
        worker.after_run(Err(WorkerError::WorkerLoop("stuck".into()))),
        SlotAction::Stop(WorkerError::WorkerLoop(reason)) if reason == "stuck"
    ));
}

#[test]
fn a_worker_ends_as_its_first_loop_does() {
    let worker = echo_worker();
    assert!(worker.after_first_loop(None).is_ok());
    assert!(worker.after_first_loop(Some(Ok(Ok(())))).is_ok());
    assert!(matches!(
        worker.after_first_loop(Some(Err("panicked".into()))),
        Err(WorkerError::WorkerLoop(reason)) if reason == "panicked"
    ));
    assert!(matches!(
        worker.after_first_loop(Some(Ok(Err(WorkerError::InvalidAssignment("odd".into()))))),
        Err(WorkerError::InvalidAssignment(reason)) if reason == "odd"
    ));
}

fn refusal(config: WorkerConfig) -> String {
    let activities: ActivityRegistry<Arc<dyn Activity>> = ActivityRegistry::new();
    match Worker::new(
        WorkerId("worker-1".into()),
        PoolId("shared".into()),
        activities,
        "orchestrator",
        config,
    ) {
        Err(WorkerError::InvalidConfiguration(message)) => message,
        _ => panic!("the configuration should be refused"),
    }
}

#[test]
fn a_configuration_without_work_or_pause_is_refused() {
    let zero = Duration::from_secs(0);
    let mut idle = config();
    idle.max_concurrency = 0;
    idle.idle_poll_interval = zero;
    assert_eq!(refusal(idle), "max_concurrency must be greater than zero");
    let intervals = "poll and lease renewal intervals must be greater than zero";
    let mut restless = config();
    restless.idle_poll_interval = zero;
    assert_eq!(refusal(restless), intervals);
    let mut eager = config();
    eager.lease_renewal_interval = zero;
    assert_eq!(refusal(eager), intervals);
}

#[test]
fn the_default_configuration_does_one_task_at_a_time() {
    let default = WorkerConfig::default();
    assert_eq!(default.max_concurrency, 1);
    assert_eq!(default.idle_poll_interval, Duration::from_secs(1));
    assert_eq!(default.lease_renewal_interval, Duration::from_secs(10));
}

#[test]
fn a_later_activity_takes_the_place_of_an_earlier_one() {
    let mut activities: ActivityRegistry<u8> = ActivityRegistry::new();
    let echo = ActivityType("echo".into());
    assert_eq!(activities.get(&echo), None);
    activities.register(echo.clone(), 1);
    activities.register(ActivityType("other".into()), 2);
    activities.register(echo.clone(), 3);
    assert_eq!(activities.get(&echo), Some(&3));
    assert_eq!(activities.get(&ActivityType("other".into())), Some(&2));
    assert_eq!(activities.get(&ActivityType("third".into())), None);
    let copy = activities.clone();
    activities.register(echo.clone(), 4);
    assert_eq!(copy.get(&echo), Some(&3));
}

#[test]
fn a_copy_of_a_worker_works_alike() {
    let worker = echo_worker().clone();
    assert_eq!(worker.id, WorkerId("worker-1".into()));
    assert_eq!(worker.pool, PoolId("shared".into()));
    assert_eq!(worker.max_concurrency, 1);
    assert_eq!(worker.orchestrator, "orchestrator");
    let mut orchestrator = FakeOrchestrator {
        assignment: Some(TaskAssignment {
            task: leased_task(),
        }),
        ..FakeOrchestrator::default()
    };
    assert!(run_once(&worker, &mut orchestrator).unwrap());
}

#[test]
fn worker_errors_are_put_into_words() {
    assert_eq!(
        WorkerError::InvalidConfiguration("none".into()).describe(),
        "none"
    );
    assert_eq!(
        WorkerError::InvalidAssignment("odd".into()).describe(),
        "odd"
    );
    assert_eq!(WorkerError::WorkerLoop("stuck".into()).describe(), "stuck");
    assert_eq!(
        ActivityError::new(String::from("broken")).describe(),
        "broken"
    );
    assert_eq!(OrchestratorClientError::new("down").describe(), "down");
}
