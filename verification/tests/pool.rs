use protot::engine::job::Job;
use protot::engine::worker_pool::Builder;
use protot::engine::worker_pool::initialize_thread_pool;
use protot::engine::worker_pool::JoinStep;
use protot::engine::worker_pool::Sentinel;
use protot::engine::worker_pool::TaskExecutor;
use protot::engine::worker_pool::TaskRegistry;
use protot::engine::worker_pool::WorkerPool;
use protot::engine::worker_pool::WorkerPoolSharedData;
use protot::engine::worker::create_worker;
use protot::engine::worker::finish_job;
use protot::engine::worker::LocalWorker;
use protot::engine::worker::process_task;
use protot::engine::worker::take_job;
use protot::engine::worker::Worker;
use protot::engine::worker::WorkerExit;
use protot::engine::worker::WorkerStep;
use protot::engine::worker::WorkerType;
use protot::internal::scheduler::ExecuteRequest;
use protot::internal::task::Any;
use protot::internal::task::Task;
use protot::utils::error::SchedulerError;
use std::sync::Arc;
use std::sync::Mutex;

fn request(id: &str, payload: Vec<u8>) -> ExecuteRequest {
    ExecuteRequest {
        task: Some(Task {
            id: id.to_string(),
            payload: Some(Any { type_url: "type.test/bytes".to_string(), value: payload }),
        }),
        execution_id: String::new(),
    }
}

fn recorder() -> (Arc<Mutex<Vec<ExecuteRequest>>>, impl FnOnce(ExecuteRequest) + Send + 'static) {
    let seen = Arc::new(Mutex::new(Vec::new()));
    let sink = Arc::clone(&seen);
    (seen, move |args: ExecuteRequest| sink.lock().unwrap().push(args))
}

struct Silent;

impl TaskExecutor for Silent {
    fn execute(&self, _args: ExecuteRequest) {}
}

#[test]
fn test_local_worker_spawn() {
    let shared_data = WorkerPoolSharedData::new(1, None, false, Some(String::from("Test")));
    let mut workers = Vec::new();
    let mut worker = LocalWorker::new(1);
    let thread = worker.spawn(&shared_data);
    workers.push(worker);
    assert_eq!(thread.worker_id, 1);
    assert_eq!(thread.name, Some("Test-1".to_string()));
    assert_eq!(thread.stack_size, None);
    assert!(workers[0].is_active);
    assert_eq!(shared_data.has_work(), false);
}

#[test]
fn fresh_pool_has_no_work_and_its_workers() {
    let pool = WorkerPool::with_name("clone example".to_string(), 2).unwrap();
    assert_eq!(pool.queued_count(), 0);
    assert_eq!(pool.active_count(), 0);
    assert_eq!(pool.max_count(), 2);
    assert_eq!(pool.panic_count(), 0);
    assert!(!pool.has_work());
    let threads = pool.threads();
    assert_eq!(threads.len(), 2);
    assert_eq!(threads[0].name, Some("clone example-0".to_string()));
    assert_eq!(threads[1].name, Some("clone example-1".to_string()));
    assert_eq!(threads[1].worker_id, 1);
}

#[test]
fn pool_without_name_has_unnamed_threads() {
    let pool = WorkerPool::new(3).unwrap();
    let threads = pool.threads();
    assert_eq!(threads.len(), 3);
    assert_eq!(threads[2].name, None);
    assert_eq!(threads[2].stack_size, None);
}

#[test]
fn builder_keeps_what_it_is_given() {
    let mut registry = TaskRegistry::new();
    registry.register_task("echo", Silent);
    let pool = Builder::new()
        .num_workers(4)
        .name("scheduler".to_string())
        .thread_stack_size(32 * 1024 * 1024)
        .with_force_shutdown()
        .executors(registry)
        .build()
        .unwrap();
    assert_eq!(pool.max_count(), 4);
    assert_eq!(pool.executors().iter_tasks(), vec!["echo".to_string()]);
    let threads = pool.threads();
    assert_eq!(threads[3].name, Some("scheduler-3".to_string()));
    assert_eq!(threads[3].stack_size, Some(33_554_432));
}

#[test]
fn builder_refuses_remote_workers() {
    match Builder::new().grpc_workers().num_workers(2).build() {
        Err(SchedulerError::PoolCreationError(message)) => {
            assert_eq!(message, "Cant serve gRPC based workers currently")
        }
        _ => panic!("a pool of remote workers was built"),
    }
}

#[test]
fn builder_takes_the_processors_where_no_number_is_given() {
    let pool = Builder::new().build().unwrap();
    assert!(pool.max_count() >= 1);
    assert_eq!(pool.max_count(), num_cpus::get());
    let pool = Builder::new().build_with(7).unwrap();
    assert_eq!(pool.max_count(), 7);
    let pool = Builder::new().num_workers(2).build_with(7).unwrap();
    assert_eq!(pool.max_count(), 2);
}

#[test]
fn enqueue_counts_exactly_one() {
    let mut pool = WorkerPool::new(2).unwrap();
    let (_, job) = recorder();
    let before = pool.queued_count();
    assert_eq!(pool.execute(job, request("a", vec![1])).unwrap(), 0);
    assert_eq!(pool.queued_count(), before + 1);
    assert_eq!(pool.active_count(), 0);
    let (_, job) = recorder();
    assert_eq!(pool.execute(job, request("b", vec![2])).unwrap(), 1);
    assert_eq!(pool.queued_count(), before + 2);
    assert!(pool.has_work());
}

#[test]
fn enqueued_request_keeps_the_task_and_carries_the_job_number() {
    let mut pool = WorkerPool::new(1).unwrap();
    let (_, first) = recorder();
    pool.execute(first, request("first", vec![])).unwrap();
    let (seen, second) = recorder();
    let mut args = request("second", vec![9, 8]);
    args.execution_id = "given by the caller".to_string();
    pool.execute(second, args).unwrap();
    match pool.take_job() {
        WorkerStep::Run(job) => {
            assert_eq!(job.get_id(), 0);
            job.execute_job();
        }
        _ => panic!("no job"),
    }
    pool.finish_job();
    match pool.take_job() {
        WorkerStep::Run(job) => {
            assert_eq!(job.get_id(), 1);
            job.execute_job();
        }
        _ => panic!("no job"),
    }
    let seen = seen.lock().unwrap();
    assert_eq!(seen.len(), 1);
    assert_eq!(seen[0].execution_id, "1");
    let task = seen[0].task.as_ref().unwrap();
    assert_eq!(task.id, "second");
    assert_eq!(task.payload.as_ref().unwrap().value, vec![9, 8]);
}

#[test]
fn request_without_task_is_refused_and_counts_nothing() {
    let mut pool = WorkerPool::new(1).unwrap();
    let (_, job) = recorder();
    let args = ExecuteRequest { task: None, execution_id: String::new() };
    match pool.execute(job, args) {
        Err(SchedulerError::TaskExecutionError(message)) => {
            assert_eq!(message, "task execution must include valid data")
        }
        _ => panic!("a request without a task was taken"),
    }
    assert_eq!(pool.queued_count(), 0);
    assert!(!pool.has_work());
}

#[test]
fn closed_pool_refuses_jobs() {
    let mut pool = WorkerPool::new(1).unwrap();
    pool.shutdown();
    let (_, job) = recorder();
    match pool.execute(job, request("late", vec![])) {
        Err(SchedulerError::TaskExecutionError(message)) => assert_eq!(
            message,
            "Couldn't excute the job as the WorkerPool is not initalized properly"
        ),
        _ => panic!("a closed pool took a job"),
    }
    assert_eq!(pool.queued_count(), 0);
}

#[test]
fn active_count_never_passes_the_number_of_workers() {
    let mut pool = WorkerPool::new(2).unwrap();
    for i in 0..5 {
        let (_, job) = recorder();
        pool.execute(job, request("t", vec![i])).unwrap();
        assert!(pool.active_count() <= pool.max_count());
    }
    let mut running = Vec::new();
    for _ in 0..5 {
        match pool.take_job() {
            WorkerStep::Run(job) => running.push(job),
            WorkerStep::Exit(reason) => assert_eq!(reason, WorkerExit::PoolShrunk),
            WorkerStep::Wait => panic!("jobs wait and workers are busy"),
        }
        assert!(pool.active_count() <= pool.max_count());
    }
    assert_eq!(running.len(), 2);
    assert_eq!(pool.active_count(), 2);
    assert_eq!(pool.queued_count(), 3);
}

#[test]
fn pool_is_idle_only_after_the_last_job() {
    let mut pool = WorkerPool::new(2).unwrap();
    for i in 0..3 {
        let (_, job) = recorder();
        pool.execute(job, request("t", vec![i])).unwrap();
    }
    let first = match pool.take_job() {
        WorkerStep::Run(job) => job,
        _ => panic!("no job"),
    };
    let second = match pool.take_job() {
        WorkerStep::Run(job) => job,
        _ => panic!("no job"),
    };
    first.execute_job();
    assert_eq!(pool.finish_job(), false);
    second.execute_job();
    assert_eq!(pool.finish_job(), false);
    assert_eq!(pool.queued_count(), 1);
    let third = match pool.take_job() {
        WorkerStep::Run(job) => job,
        _ => panic!("no job"),
    };
    assert_eq!((pool.queued_count(), pool.active_count()), (0, 1));
    third.execute_job();
    assert_eq!(pool.finish_job(), true);
    assert_eq!((pool.queued_count(), pool.active_count()), (0, 0));
    assert!(!pool.has_work());
}

#[test]
fn worker_waits_on_an_empty_queue_and_leaves_a_closed_one() {
    let mut pool = WorkerPool::new(1).unwrap();
    assert!(matches!(pool.take_job(), WorkerStep::Wait));
    let (_, job) = recorder();
    pool.execute(job, request("t", vec![])).unwrap();
    pool.shutdown();
    assert!(matches!(pool.take_job(), WorkerStep::Run(_)));
    pool.finish_job();
    assert!(matches!(pool.take_job(), WorkerStep::Exit(WorkerExit::Disconnected)));
}

#[test]
fn pool_without_workers_starts_nothing() {
    let mut pool = WorkerPool::new(0).unwrap();
    let (_, job) = recorder();
    pool.execute(job, request("t", vec![])).unwrap();
    assert!(matches!(pool.take_job(), WorkerStep::Exit(WorkerExit::PoolShrunk)));
    assert_eq!(pool.queued_count(), 1);
}

#[test]
fn join_returns_at_once_when_idle() {
    let mut pool = WorkerPool::new(2).unwrap();
    assert_eq!(pool.join(None), JoinStep::Return);
}

#[test]
fn join_after_enqueues_returns_without_work() {
    let (mut shared, _workers) = initialize_thread_pool(1, None, false, None);
    let seen = Arc::new(Mutex::new(Vec::new()));
    for i in 0..4usize {
        let sink = Arc::clone(&seen);
        let data = request("t", vec![i as u8]);
        let job = Job::new(i, move |args: ExecuteRequest| sink.lock().unwrap().push(args), data);
        shared.enqueue(job);
    }
    let ticket = match shared.join(None) {
        JoinStep::Wait(ticket) => ticket,
        JoinStep::Return => panic!("joined while work was left"),
    };
    assert_eq!(shared.join(Some(ticket)), JoinStep::Wait(ticket));
    let exit = process_task(&mut shared, Sentinel::new(0));
    assert_eq!(exit, WorkerExit::Idle);
    assert_eq!(shared.join(Some(ticket)), JoinStep::Return);
    assert!(!shared.has_work());
    assert_eq!(shared.queued_count(), 0);
    let order: Vec<u8> = seen
        .lock()
        .unwrap()
        .iter()
        .map(|r| r.task.as_ref().unwrap().payload.as_ref().unwrap().value[0])
        .collect();
    assert_eq!(order, vec![0, 1, 2, 3]);
}

#[test]
fn joiner_with_an_old_ticket_returns() {
    let mut pool = WorkerPool::new(1).unwrap();
    let (_, job) = recorder();
    pool.execute(job, request("t", vec![])).unwrap();
    let first = match pool.join(None) {
        JoinStep::Wait(ticket) => ticket,
        JoinStep::Return => panic!("joined while work was left"),
    };
    let second = match pool.join(None) {
        JoinStep::Wait(ticket) => ticket,
        JoinStep::Return => panic!("joined while work was left"),
    };
    assert_eq!(first, second);
    match pool.take_job() {
        WorkerStep::Run(job) => job.execute_job(),
        _ => panic!("no job"),
    }
    assert!(pool.finish_job());
    assert_eq!(pool.join(Some(first)), JoinStep::Return);
    let (_, job) = recorder();
    pool.execute(job, request("t", vec![])).unwrap();
    assert_eq!(pool.join(Some(second)), JoinStep::Return);
    assert_eq!(pool.join(None), JoinStep::Wait(first + 1));
}

#[test]
fn forced_shutdown_lets_joiners_go() {
    let mut pool = Builder::new().num_workers(1).with_force_shutdown().build().unwrap();
    let (_, job) = recorder();
    pool.execute(job, request("t", vec![])).unwrap();
    assert_eq!(pool.join(None), JoinStep::Return);
    assert!(pool.has_work());
}

#[test]
fn panic_is_absorbed_and_the_worker_replaced() {
    let mut pool = WorkerPool::with_name("p".to_string(), 2).unwrap();
    let (_, job) = recorder();
    pool.execute(job, request("t", vec![])).unwrap();
    let job = match pool.take_job() {
        WorkerStep::Run(job) => job,
        _ => panic!("no job"),
    };
    drop(job);
    let panics = pool.panic_count();
    let respawn = pool.recover(1);
    assert_eq!(pool.panic_count(), panics + 1);
    assert_eq!(pool.active_count(), 0);
    assert_eq!(pool.max_count(), 2);
    assert_eq!(pool.threads().len(), 2);
    assert_eq!(respawn.worker, LocalWorker { id: 1, is_active: true });
    assert_eq!(respawn.thread.name, Some("p-1".to_string()));
    assert!(respawn.notify);
}

#[test]
fn cancelled_sentinel_changes_nothing() {
    let mut shared = WorkerPoolSharedData::new(1, None, false, None);
    let sentinel = Sentinel::new(3);
    assert!(sentinel.active);
    let retired = sentinel.cancel();
    assert_eq!(retired, Sentinel { worker_id: 3, active: false });
    assert!(retired.release(&mut shared, true).is_none());
    assert_eq!(shared.panic_count(), 0);
}

#[test]
fn armed_sentinel_accounts_for_the_job() {
    let mut shared = WorkerPoolSharedData::new(1, Some(4096), false, Some("s".to_string()));
    shared.enqueue(Job::new(0, |_args: ExecuteRequest| {}, request("t", vec![])));
    assert!(shared.process_new_excution_metrics().is_some());
    assert_eq!(shared.load_thread_metrics(), (1, 1));
    let respawn = Sentinel::new(0).release(&mut shared, false).unwrap();
    assert_eq!(shared.load_thread_metrics(), (0, 1));
    assert_eq!(shared.panic_count(), 0);
    assert_eq!(respawn.thread.stack_size, Some(4096));
    assert_eq!(respawn.thread.name, Some("s-0".to_string()));
}

#[test]
fn shared_data_steps() {
    let mut shared = WorkerPoolSharedData::new(2, Some(1024), true, Some("x".to_string()));
    assert_eq!(shared.get_name(), Some("x".to_string()));
    assert_eq!(shared.get_stack_size(), Some(1024));
    assert!(shared.is_force_shutdown());
    assert!(shared.is_connected());
    assert!(shared.no_work_notify_all());
    assert!(shared.process_new_excution_metrics().is_none());
    shared.enqueue(Job::new(0, |_args: ExecuteRequest| {}, request("t", vec![])));
    assert_eq!(shared.job_counter(), 1);
    assert!(!shared.no_work_notify_all());
    match take_job(&mut shared) {
        WorkerStep::Run(job) => job.execute_job(),
        _ => panic!("no job"),
    }
    assert_eq!(shared.load_thread_metrics(), (1, 2));
    assert!(finish_job(&mut shared));
    shared.disconnect();
    assert!(!shared.is_connected());
}

#[test]
fn process_task_leaves_at_once_when_all_workers_are_busy() {
    let mut shared = WorkerPoolSharedData::new(1, None, false, None);
    shared.enqueue(Job::new(0, |_args: ExecuteRequest| {}, request("a", vec![])));
    shared.enqueue(Job::new(1, |_args: ExecuteRequest| {}, request("b", vec![])));
    assert!(shared.process_new_excution_metrics().is_some());
    assert_eq!(process_task(&mut shared, Sentinel::new(0)), WorkerExit::PoolShrunk);
    assert_eq!(shared.queued_count(), 1);
    shared.decrement_thread_active();
    shared.disconnect();
    assert_eq!(process_task(&mut shared, Sentinel::new(0)), WorkerExit::Disconnected);
    assert_eq!(shared.queued_count(), 0);
}

#[test]
fn create_worker_makes_a_worker_that_is_not_started() {
    let worker = create_worker(WorkerType::Local, 5);
    assert_eq!(worker, LocalWorker { id: 5, is_active: false });
    assert_eq!(WorkerType::default(), WorkerType::Local);
}

#[test]
fn registry_keeps_one_executor_for_each_name() {
    let mut registry = TaskRegistry::new();
    registry.register_task("a", Silent);
    registry.register_task("b", Silent);
    registry.register_task("a", Silent);
    assert_eq!(registry.iter_tasks(), vec!["a".to_string(), "b".to_string()]);
    assert!(registry.get_executor("b").is_ok());
    match registry.get_executor("nope") {
        Err(SchedulerError::TaskExecutionError(message)) => {
            assert_eq!(message, "Executor not found for task: nope")
        }
        _ => panic!("an executor was found"),
    }
}
