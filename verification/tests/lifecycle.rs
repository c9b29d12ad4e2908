use protot::engine::worker_pool::JoinStep;
use protot::engine::worker_pool::TaskExecutor;
use protot::engine::worker_pool::TaskRegistry;
use protot::engine::worker_pool::WorkerPool;
use protot::engine::worker::WorkerStep;
use protot::init_distributed_grpc_scheduler;
use protot::init_single_process_grpc_scheduler;
use protot::internal::config::Config;
use protot::internal::config::DataStore;
use protot::internal::config::Duration;
use protot::internal::config::LoadBalancer;
use protot::internal::config::NodeType;
use protot::internal::scheduler::ExecuteRequest;
use protot::internal::scheduler::RegistrationRequest;
use protot::internal::scheduler::ScheduleRequest;
use protot::internal::task::Any;
use protot::internal::task::Task;
use protot::internal::task::TaskState;
use protot::ProcessOptions;
use protot::prost_duration_to_std_duration;
use protot::server::exit_code;
use protot::server::Interval;
use protot::server::listen_address;
use protot::server::SchedulerAdminService;
use protot::server::SchedulerSingleProcessAdminService;
use protot::server::session::Session;
use protot::server::session::SessionState;
use protot::server::SharedData;
use protot::server::ShutdownStep;
use protot::server::start_scheduler_grpc_server;
use protot::server::start_single_process_grpc_server;
use protot::start;
use protot::Started;
use protot::utils::error::SchedulerError;
use protot::utils::status::Code;
use std::sync::Arc;
use std::sync::Mutex;

struct Echo {
    seen: Arc<Mutex<Vec<ExecuteRequest>>>,
}

impl TaskExecutor for Echo {
    fn execute(&self, args: ExecuteRequest) {
        self.seen.lock().unwrap().push(args);
    }
}

fn echo_registry() -> (Arc<Mutex<Vec<ExecuteRequest>>>, TaskRegistry) {
    let seen = Arc::new(Mutex::new(Vec::new()));
    let mut registry = TaskRegistry::new();
    registry.register_task("echo", Echo { seen: Arc::clone(&seen) });
    (seen, registry)
}

fn request(id: &str, payload: Vec<u8>) -> ExecuteRequest {
    ExecuteRequest {
        task: Some(Task {
            id: id.to_string(),
            payload: Some(Any { type_url: String::new(), value: payload }),
        }),
        execution_id: String::new(),
    }
}

fn config(node_type: NodeType, workers: i32, port: i32) -> Config {
    Config {
        node_type,
        num_workers: workers,
        grpc_port: port,
        graceful_timeout: 30,
        load_balancer: LoadBalancer::RoundRobin,
        heartbeat_interval: None,
        data_store: None,
    }
}

fn service(workers: usize) -> (Arc<Mutex<Vec<ExecuteRequest>>>, SchedulerSingleProcessAdminService) {
    let (seen, registry) = echo_registry();
    let mut pool = WorkerPool::new(workers).unwrap();
    for name in registry.iter_tasks() {
        assert_eq!(name, "echo");
    }
    pool.register_task("echo", Echo { seen: Arc::clone(&seen) });
    (seen, SchedulerSingleProcessAdminService::new(SharedData { worker_pool: pool }))
}

#[test]
fn local_dispatch() {
    let (seen, mut service) = service(2);
    let response = service.execute(request("echo", vec![0x01])).unwrap();
    assert_eq!(response.state, TaskState::Pending);
    assert_eq!(response.task_id, "echo");
    assert_eq!(response.execution_id, "0");
    assert!(seen.lock().unwrap().is_empty());
    match service.shared_data.worker_pool.take_job() {
        WorkerStep::Run(job) => job.execute_job(),
        _ => panic!("nothing was enqueued"),
    }
    assert!(service.shared_data.worker_pool.finish_job());
    let seen = seen.lock().unwrap();
    let with_payload = seen
        .iter()
        .filter(|r| r.task.as_ref().unwrap().payload.as_ref().unwrap().value == vec![0x01])
        .count();
    assert_eq!(with_payload, 1);
    assert_eq!(seen.len(), 1);
    assert_eq!(seen[0].task.as_ref().unwrap().id, "echo");
    assert_eq!(seen[0].execution_id, "0");
}

#[test]
fn missing_executor() {
    let (_, mut service) = service(2);
    let status = service
        .execute(ExecuteRequest {
            task: Some(Task { id: "nope".to_string(), payload: None }),
            execution_id: String::new(),
        })
        .unwrap_err();
    assert_eq!(status.code, Code::FailedPrecondition);
    assert_eq!(status.message, "request contains invalid arguments");
    let details = status.details.unwrap();
    assert!(details.violation_description.contains("Executor not found for task: nope"));
    assert_eq!(
        details.violation_description,
        "failed to execute task on worker pool: Task execution error: Executor not found for task: nope"
    );
    assert_eq!(details.violation_type, "EXECUTOR");
    assert_eq!(details.violation_subject, "WorkerPool");
    assert_eq!(details.help_description, "documentation");
    assert_eq!(details.help_url, "https://protot.io/docs/help");
    assert_eq!(details.locale, "en-US");
    assert_eq!(details.localized_message, "error executing task");
    assert_eq!(service.shared_data.worker_pool.queued_count(), 0);
}

#[test]
fn single_process_refuses_a_request_without_a_task() {
    let (_, mut service) = service(1);
    let status =
        service.execute(ExecuteRequest { task: None, execution_id: "x".to_string() }).unwrap_err();
    assert_eq!(status.code, Code::FailedPrecondition);
    assert_eq!(
        status.details.unwrap().violation_description,
        "failed to execute task on worker pool: Task execution error: task execution must include valid data"
    );
}

#[test]
fn schedule_is_not_implemented() {
    let (_, service) = service(1);
    let status = service.schedule(ScheduleRequest { task: None }).unwrap_err();
    assert_eq!(status.code, Code::Unimplemented);
    assert_eq!(status.message, "request contains invalid arguments");
    let details = status.details.unwrap();
    assert_eq!(details.violation_type, "unimplemented");
    assert_eq!(details.violation_subject, "schedule");
    assert_eq!(
        details.violation_description,
        "admin schedule server isnt supporting scheduling of tasks"
    );
    assert_eq!(details.help_description, "description of link");
    assert_eq!(details.help_url, "https://resource.example.local");
    assert_eq!(details.localized_message, "message for the user");
    let remote = SchedulerAdminService::new(SharedData { worker_pool: WorkerPool::new(1).unwrap() });
    assert_eq!(remote.schedule(ScheduleRequest { task: None }).unwrap_err().code, Code::Unimplemented);
}

#[test]
fn graceful_shutdown() {
    let (seen, registry) = echo_registry();
    let started = start(registry, config(NodeType::SingleProcess, 3, 44880)).unwrap();
    let mut server = match started {
        Started::SingleProcess(server) => server,
        Started::Scheduler(..) => panic!("a scheduler for remote workers was started"),
    };
    for i in 0..3 {
        server.service.execute(request("echo", vec![i])).unwrap();
    }
    let mut running = Vec::new();
    for _ in 0..3 {
        match server.service.shared_data.worker_pool.take_job() {
            WorkerStep::Run(job) => running.push(job),
            _ => panic!("a job did not start"),
        }
    }
    assert_eq!(server.service.shared_data.worker_pool.active_count(), 3);
    assert_eq!(server.interrupt(), ShutdownStep::Drain(30));
    let refused = server.service.execute(request("echo", vec![9])).unwrap_err();
    assert_eq!(refused.code, Code::FailedPrecondition);
    assert_eq!(
        refused.details.unwrap().violation_description,
        "failed to execute task on worker pool: Task execution error: Couldn't excute the job as the WorkerPool is not initalized properly"
    );
    let ticket = match server.service.shared_data.worker_pool.join(None) {
        JoinStep::Wait(ticket) => ticket,
        JoinStep::Return => panic!("joined while jobs were running"),
    };
    let mut woken = 0;
    for job in running {
        job.execute_job();
        if server.service.shared_data.worker_pool.finish_job() {
            woken += 1;
        }
    }
    assert_eq!(woken, 1);
    assert_eq!(seen.lock().unwrap().len(), 3);
    assert_eq!(server.service.shared_data.worker_pool.join(Some(ticket)), JoinStep::Return);
    assert!(!server.service.shared_data.worker_pool.has_work());
    assert_eq!(exit_code(false), 0);
    assert_eq!(server.interrupt(), ShutdownStep::Exit(1));
    assert_eq!(exit_code(true), 1);
}

#[test]
fn second_interrupt_during_the_drain_ends_the_process() {
    let mut server = start_single_process_grpc_server(1, WorkerPool::new(1).unwrap(), 5).unwrap();
    assert!(!server.interrupt_received);
    assert_eq!(server.interrupt(), ShutdownStep::Drain(5));
    assert!(server.interrupt_received);
    assert_eq!(server.interrupt(), ShutdownStep::Exit(1));
    assert_eq!(server.interrupt(), ShutdownStep::Exit(1));
}

#[test]
fn interrupt_of_a_distributed_scheduler_cancels_the_sessions() {
    let interval = Interval { secs: 1, nanos: 0 };
    let mut server =
        start_scheduler_grpc_server(44880, WorkerPool::new(1).unwrap(), 30, interval).unwrap();
    let mut session = Session::new();
    let request = RegistrationRequest {
        worker_id: "w1".to_string(),
        supported_tasks: Vec::new(),
        magic_cookie: "SomeSecert".to_string(),
    };
    server.workers.shared_state.register(&request, 0).unwrap();
    session.registered_worker_id = Some("w1".to_string());
    session.state = SessionState::Active;
    assert_eq!(server.tick(), 1);
    assert_eq!(server.interrupt(), ShutdownStep::Drain(30));
    let forward = server.workers.forward(&mut session);
    assert_eq!(forward.messages.len(), 1);
    assert!(forward.abort.is_some());
    assert_eq!(session.state, SessionState::Closed);
    let refused = server
        .service
        .execute(&mut server.workers, request_for("t"))
        .unwrap_err();
    assert_eq!(refused.code, Code::Aborted);
    assert_eq!(server.interrupt(), ShutdownStep::Exit(1));
}

fn request_for(id: &str) -> ExecuteRequest {
    ExecuteRequest { task: Some(Task { id: id.to_string(), payload: None }), execution_id: String::new() }
}

#[test]
fn monitor_gives_up_workers_after_three_intervals() {
    let interval = Interval { secs: 1, nanos: 500_000_000 };
    let mut server =
        start_scheduler_grpc_server(44880, WorkerPool::new(1).unwrap(), 30, interval).unwrap();
    let request = RegistrationRequest {
        worker_id: "w1".to_string(),
        supported_tasks: Vec::new(),
        magic_cookie: "SomeSecert".to_string(),
    };
    server.workers.shared_state.register(&request, 10_000).unwrap();
    assert!(server.monitor(14_500).is_empty());
    assert_eq!(server.monitor(14_501), vec!["w1"]);
    assert!(server.workers.shared_state.grpc_worker_channels.get(0).evicted);
}

#[test]
fn intervals_in_milliseconds() {
    assert_eq!(Interval { secs: 1, nanos: 0 }.millis(), 1000);
    assert_eq!(Interval { secs: 1, nanos: 0 }.eviction_threshold(), 3000);
    assert_eq!(Interval { secs: 2, nanos: 1_999_999 }.millis(), 2001);
    assert_eq!(Interval { secs: 0, nanos: 4_000_000_000 }.millis(), 4000);
    assert_eq!(Interval { secs: u64::MAX, nanos: 0 }.millis(), u64::MAX);
    assert_eq!(Interval { secs: u64::MAX / 1000, nanos: 999_000_000 }.millis(), u64::MAX);
    assert_eq!(Interval { secs: u64::MAX / 1000, nanos: 0 }.eviction_threshold(), u64::MAX);
    assert_eq!(Interval { secs: 0, nanos: 0 }.eviction_threshold(), 0);
}

#[test]
fn heartbeat_interval_of_the_configuration() {
    assert_eq!(prost_duration_to_std_duration(None), Interval { secs: 1, nanos: 0 });
    assert_eq!(
        prost_duration_to_std_duration(Some(Duration { seconds: 5, nanos: 250 })),
        Interval { secs: 5, nanos: 250 }
    );
    assert_eq!(
        prost_duration_to_std_duration(Some(Duration { seconds: -1, nanos: -1 })),
        Interval { secs: u64::MAX, nanos: u32::MAX }
    );
}

#[test]
fn listen_address_takes_ports_from_1_to_65535() {
    assert_eq!(listen_address(44880).unwrap(), "0.0.0.0:44880");
    assert_eq!(listen_address(1).unwrap(), "0.0.0.0:1");
    assert_eq!(listen_address(65535).unwrap(), "0.0.0.0:65535");
    for port in [0, -1, 65536, i32::MAX, i32::MIN] {
        match listen_address(port) {
            Err(SchedulerError::SchedulerServiceError(message)) => {
                assert_eq!(message, "Scheduler errored: AddrParseError(Socket)")
            }
            _ => panic!("{} was taken for a port", port),
        }
    }
}

#[test]
fn start_of_a_single_process() {
    let (_, registry) = echo_registry();
    match start(registry, config(NodeType::SingleProcess, 4, 50051)).unwrap() {
        Started::SingleProcess(server) => {
            assert_eq!(server.address, "0.0.0.0:50051");
            assert_eq!(server.graceful_timeout, 30);
            assert!(!server.interrupt_received);
            let pool = &server.service.shared_data.worker_pool;
            assert_eq!(pool.max_count(), 4);
            assert_eq!(pool.executors().iter_tasks(), vec!["echo"]);
            let threads = pool.threads();
            assert_eq!(threads[0].name, Some("scheduler-0".to_string()));
            assert_eq!(threads[0].stack_size, Some(32 * 1024 * 1024));
        }
        Started::Scheduler(..) => panic!("a scheduler for remote workers was started"),
    }
}

#[test]
fn start_of_a_scheduler_needs_a_data_store() {
    let mut cfg = config(NodeType::Scheduler, 4, 50051);
    match start(TaskRegistry::new(), config(NodeType::Scheduler, 4, 50051)) {
        Err(SchedulerError::DataLayerError(message)) => {
            assert_eq!(message, "Must set up a data store configurations")
        }
        _ => panic!("a scheduler was started without a data store"),
    }
    cfg.data_store = Some(DataStore { store_type: 1, host: "h".to_string() });
    match start(TaskRegistry::new(), cfg) {
        Err(SchedulerError::DataLayerError(message)) => {
            assert_eq!(message, "Unsupported data store type")
        }
        _ => panic!("a scheduler was started with an unknown data store"),
    }
    let mut cfg = config(NodeType::Scheduler, 2, 44880);
    cfg.data_store = Some(DataStore { store_type: 0, host: "redis://h".to_string() });
    cfg.heartbeat_interval = Some(Duration { seconds: 2, nanos: 0 });
    match start(TaskRegistry::new(), cfg).unwrap() {
        Started::Scheduler(server, store) => {
            assert_eq!(store, DataStore { store_type: 0, host: "redis://h".to_string() });
            assert_eq!(server.address, "0.0.0.0:44880");
            assert_eq!(server.heartbeat_interval, Interval { secs: 2, nanos: 0 });
            assert_eq!(server.workers.shared_state.grpc_worker_channels.len(), 0);
            assert_eq!(server.workers.shared_state.max_queue_size(), 100);
            assert_eq!(server.service.executions, 0);
        }
        Started::SingleProcess(_) => panic!("a single process was started"),
    }
}

#[test]
fn start_refuses_workers_and_bad_settings() {
    match start(TaskRegistry::new(), config(NodeType::Worker, 4, 50051)) {
        Err(SchedulerError::SchedulerUnimplemented(message)) => {
            assert_eq!(message, "Unimplemented node type WORKER")
        }
        _ => panic!("a worker was started"),
    }
    for workers in [0, -3] {
        match start(TaskRegistry::new(), config(NodeType::SingleProcess, workers, 50051)) {
            Err(SchedulerError::PoolCreationError(message)) => {
                assert_eq!(message, "the number of workers must be at least 1")
            }
            _ => panic!("a pool without workers was built"),
        }
    }
    match start(TaskRegistry::new(), config(NodeType::SingleProcess, 1, 0)) {
        Err(SchedulerError::SchedulerServiceError(message)) => {
            assert_eq!(message, "Scheduler errored: AddrParseError(Socket)")
        }
        _ => panic!("port 0 was taken"),
    }
    let mut cfg = config(NodeType::Scheduler, 0, 0);
    cfg.data_store = Some(DataStore { store_type: 0, host: String::new() });
    assert!(matches!(start(TaskRegistry::new(), cfg), Err(SchedulerError::PoolCreationError(_))));
}

#[test]
fn init_functions_take_the_options() {
    let opts = ProcessOptions { process_name: "mine".to_string(), task_executors: TaskRegistry::new() };
    let server =
        init_single_process_grpc_scheduler(config(NodeType::SingleProcess, 1, 8080), opts).unwrap();
    assert_eq!(server.service.shared_data.worker_pool.threads()[0].name, Some("mine-0".to_string()));
    let opts = ProcessOptions::default();
    assert_eq!(opts.process_name, "scheduler");
    let server = init_distributed_grpc_scheduler(config(NodeType::Scheduler, 1, 8080), opts).unwrap();
    assert_eq!(server.heartbeat_interval, Interval { secs: 1, nanos: 0 });
    assert_eq!(NodeType::Scheduler.as_str_name(), "SCHEDULER");
    assert_eq!(NodeType::SingleProcess.as_str_name(), "SINGLE_PROCESS");
}
