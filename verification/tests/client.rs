use protot::client::GrpcWorker;
use protot::client::GrpcWorkerBuilder;
use protot::client::report;
use protot::client::WorkerAction;
use protot::engine::worker_pool::AsyncTaskExecutor;
use protot::engine::worker_pool::GrpcWorkersRegistry;
use protot::internal::scheduler::Ack;
use protot::internal::scheduler::AssignTaskRequest;
use protot::internal::scheduler::Disconnect;
use protot::internal::scheduler::ExecuteRequest;
use protot::internal::scheduler::Pong;
use protot::internal::scheduler::RegistrationRequest;
use protot::internal::scheduler::SchedulerMessage;
use protot::internal::scheduler::SchedulerMessageType;
use protot::internal::scheduler::TaskCompletion;
use protot::internal::scheduler::WorkerChannelStatus;
use protot::internal::scheduler::WorkerMessage;
use protot::internal::scheduler::WorkerMessageType;
use protot::internal::scheduler::WorkerMetrics;
use protot::internal::task::Task;
use protot::internal::task::TaskState;
use protot::utils::error::SchedulerError;

struct Succeeds;

impl AsyncTaskExecutor for Succeeds {
    fn execute(&self, args: ExecuteRequest) -> Result<TaskCompletion, SchedulerError> {
        Ok(TaskCompletion {
            task_id: args.task.unwrap().id,
            execution_id: args.execution_id,
            state: TaskState::Success,
        })
    }
}

struct Fails;

impl AsyncTaskExecutor for Fails {
    fn execute(&self, _args: ExecuteRequest) -> Result<TaskCompletion, SchedulerError> {
        Err(SchedulerError::TaskExecutionError("broken".to_string()))
    }
}

fn assign(task: &str, execution: &str) -> AssignTaskRequest {
    AssignTaskRequest {
        task: Some(Task { id: task.to_string(), payload: None }),
        execution_id: execution.to_string(),
    }
}

fn completion(task: &str, execution: &str, state: TaskState) -> WorkerMessage {
    WorkerMessage {
        worker_message_type: Some(WorkerMessageType::Completion(TaskCompletion {
            task_id: task.to_string(),
            execution_id: execution.to_string(),
            state,
        })),
    }
}

fn worker() -> GrpcWorker {
    let mut registry = GrpcWorkersRegistry::new();
    registry.register_task("task-1", Succeeds);
    registry.register_task("task-2", Fails);
    GrpcWorkerBuilder::new().with_id("some-worker-2".to_string()).with_registry(registry).build()
}

#[test]
fn builder_defaults() {
    let builder = GrpcWorkerBuilder::new();
    assert_eq!(builder.worker_id, Some("SomeWorkerId".to_string()));
    assert!(builder.tasks.is_empty());
    assert_eq!(builder.cookie, None);
    assert!(builder.registry.is_none());
    let worker = builder.build();
    assert_eq!(
        worker.registeration_details,
        RegistrationRequest {
            worker_id: "SomeWorkerId".to_string(),
            supported_tasks: Vec::new(),
            magic_cookie: "SomeSecert".to_string(),
        }
    );
    assert_eq!(GrpcWorker::default().registeration_details, worker.registeration_details);
}

#[test]
fn builder_without_an_id_falls_back_to_the_default() {
    let mut builder = GrpcWorkerBuilder::new();
    builder.worker_id = None;
    builder.cookie = Some("k".to_string());
    builder.tasks = vec!["a".to_string()];
    let worker = builder.build();
    assert_eq!(worker.registeration_details.worker_id, "SomeWorkerId");
    assert_eq!(worker.registeration_details.magic_cookie, "k");
    assert_eq!(worker.registeration_details.supported_tasks, vec!["a"]);
}

#[test]
fn worker_registers_first() {
    let worker = worker();
    match worker.registration().worker_message_type {
        Some(WorkerMessageType::Registration(request)) => {
            assert_eq!(request.worker_id, "some-worker-2");
            assert_eq!(request.magic_cookie, "SomeSecert");
        }
        _ => panic!("the first message is no registration"),
    }
}

#[test]
fn worker_runs_assignments_and_answers_heartbeats() {
    let worker = worker();
    let message = |kind| SchedulerMessage { scheduler_message_type: kind };
    assert_eq!(
        worker.communicate(message(Some(SchedulerMessageType::AssignTask(assign("task-1", "4"))))),
        WorkerAction::Execute(assign("task-1", "4"))
    );
    assert_eq!(
        worker.communicate(message(Some(SchedulerMessageType::Heartbeat))),
        WorkerAction::Send(WorkerMessage {
            worker_message_type: Some(WorkerMessageType::Heartbeat(Pong {
                metrics: Some(WorkerMetrics {})
            })),
        })
    );
    let nameless = AssignTaskRequest { task: None, execution_id: "4".to_string() };
    assert_eq!(
        worker.communicate(message(Some(SchedulerMessageType::AssignTask(nameless)))),
        WorkerAction::Ignore
    );
    let ack = Ack { message: "worker connected".to_string(), status: WorkerChannelStatus::Ready };
    assert_eq!(worker.communicate(message(Some(SchedulerMessageType::Ack(ack)))), WorkerAction::Ignore);
    let bye = Disconnect { message: String::new() };
    assert_eq!(
        worker.communicate(message(Some(SchedulerMessageType::Disconnect(bye)))),
        WorkerAction::Ignore
    );
    assert_eq!(worker.communicate(message(None)), WorkerAction::Ignore);
}

#[test]
fn worker_reports_what_its_executor_reports() {
    let worker = worker();
    assert_eq!(worker.run(assign("task-1", "4")), Some(completion("task-1", "4", TaskState::Success)));
    assert_eq!(worker.run(assign("task-2", "5")), None);
}

#[test]
fn worker_without_an_executor_reports_a_failure() {
    let worker = worker();
    assert_eq!(worker.run(assign("task-3", "6")), Some(completion("task-3", "6", TaskState::Fail)));
}

#[test]
fn report_sends_completions_only() {
    let done = TaskCompletion {
        task_id: "t".to_string(),
        execution_id: "1".to_string(),
        state: TaskState::Pending,
    };
    assert_eq!(report(Ok(done)), Some(completion("t", "1", TaskState::Pending)));
    assert_eq!(report(Err(SchedulerError::DataLayerError("x".to_string()))), None);
}

#[test]
fn worker_registry_keeps_one_executor_for_each_name() {
    let mut registry = GrpcWorkersRegistry::new();
    registry.register_task("task-1", Fails);
    registry.register_task("task-1", Succeeds);
    assert!(registry.get_executor("task-1").is_ok());
    let request = ExecuteRequest {
        task: Some(Task { id: "task-1".to_string(), payload: None }),
        execution_id: "e".to_string(),
    };
    assert!(registry.get_executor("task-1").ok().unwrap().execute(request).is_ok());
    match registry.get_executor("task-9") {
        Err(SchedulerError::TaskExecutionError(message)) => {
            assert_eq!(message, "Executor not found for task: task-9")
        }
        _ => panic!("an executor was found"),
    }
}
