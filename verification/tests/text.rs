use protot::data::data_store::surface;
use protot::data::redis_store::add_task_execution;
use protot::data::redis_store::clean_host;
use protot::data::redis_store::connect_failed;
use protot::data::redis_store::HashWrite;
use protot::data::redis_store::open_failed;
use protot::data::redis_store::write_failed;
use protot::internal::config::Config;
use protot::internal::config::DataStore;
use protot::internal::config::Duration;
use protot::internal::scheduler::ExecuteRequest;
use protot::internal::task::Any;
use protot::internal::task::Task;
use protot::internal::task::TaskState;
use protot::server::metrics::decrement_task_queue;
use protot::server::metrics::increment_task;
use protot::server::metrics::register_metrics;
use protot::server::metrics::set_worker_pool_metric;
use protot::server::metrics::update_worker_utilization;
use protot::server::metrics::WorkerPoolMetricType;
use protot::server::metrics::WorkerPoolTaskType;
use protot::server::metrics::WorkerUtilization;
use protot::utils::args::init_overrides;
use protot::utils::args::num_workers_in_range;
use protot::utils::args::port_in_range;
use protot::utils::args::workers_in_range;
use protot::utils::configs::config_format;
use protot::utils::configs::config_from;
use protot::utils::configs::ConfigFormat;
use protot::utils::configs::deserialize_failed;
use protot::utils::configs::load_failed;
use protot::utils::configs::LoadBalancer;
use protot::utils::configs::NodeType;
use protot::utils::configs::SerdeConfig;
use protot::utils::configs::WrapperDuration;
use protot::utils::error::SchedulerError;
use protot::utils::get_ascii_logo;
use protot::utils::get_protot_metadata;
use protot::utils::text::chars_of;
use protot::utils::text::decimal;
use protot::utils::text::ends_with;
use protot::utils::text::parse_usize;
use protot::utils::text::push_padded;
use protot::utils::text::push_repeated;

#[test]
fn decimal_writes_numbers() {
    assert_eq!(decimal(0), "0");
    assert_eq!(decimal(7), "7");
    assert_eq!(decimal(10), "10");
    assert_eq!(decimal(65535), "65535");
    assert_eq!(decimal(1_000_000_007), "1000000007");
    assert_eq!(decimal(u64::MAX), "18446744073709551615");
    for n in [0u64, 9, 10, 99, 100, 12345, 9_876_543_210] {
        assert_eq!(decimal(n), n.to_string());
    }
}

#[test]
fn parse_reads_what_the_machine_reads() {
    let cases = [
        "0", "1", "007", "+5", "+", "", "-1", "-0", "++1", "1+", " 1", "1 ", "12a", "a", "1_000",
        "18446744073709551615", "18446744073709551616", "99999999999999999999999", "４２", "0x10",
        "+0", "4294967295", "4294967296",
    ];
    for case in cases {
        assert_eq!(parse_usize(case), case.parse::<usize>().ok(), "{:?}", case);
    }
    assert_eq!(parse_usize("44880"), Some(44880));
    assert_eq!(parse_usize("+44880"), Some(44880));
    assert_eq!(parse_usize("000"), Some(0));
    assert_eq!(parse_usize(""), None);
}

#[test]
fn ends_with_looks_at_the_end() {
    assert!(ends_with("configs.yaml", ".yaml"));
    assert!(ends_with(".yaml", ".yaml"));
    assert!(!ends_with("yaml", ".yaml"));
    assert!(!ends_with("configs.yaml.bak", ".yaml"));
    assert!(ends_with("anything", ""));
    assert!(ends_with("", ""));
    assert!(!ends_with("", "x"));
    assert!(ends_with("añb", "ñb"));
}

#[test]
fn chars_and_padding() {
    assert_eq!(chars_of("añ"), vec!['a', 'ñ']);
    assert!(chars_of("").is_empty());
    let mut out = String::from(">");
    push_repeated(&mut out, "=", 3);
    assert_eq!(out, ">===");
    push_repeated(&mut out, "=", 0);
    assert_eq!(out, ">===");
    let mut out = String::new();
    push_padded(&mut out, "Version", 16);
    assert_eq!(out, "Version         ");
    let mut out = String::new();
    push_padded(&mut out, "a key longer than the column", 16);
    assert_eq!(out, "a key longer than the column");
    let mut out = String::new();
    push_padded(&mut out, "ñ", 3);
    assert_eq!(out, "ñ  ");
}

#[test]
fn port_in_range_takes_1_to_65535() {
    assert_eq!(port_in_range("44880"), Ok(44880));
    assert_eq!(port_in_range("1"), Ok(1));
    assert_eq!(port_in_range("65535"), Ok(65535));
    assert_eq!(port_in_range("+80"), Ok(80));
    assert_eq!(port_in_range("0"), Err("port not in range 1-65535".to_string()));
    assert_eq!(port_in_range("65536"), Err("port not in range 1-65535".to_string()));
    assert_eq!(port_in_range("http"), Err("`http` isn't a port number".to_string()));
    assert_eq!(port_in_range(""), Err("`` isn't a port number".to_string()));
    assert_eq!(port_in_range("-1"), Err("`-1` isn't a port number".to_string()));
    assert_eq!(
        port_in_range("99999999999999999999999"),
        Err("`99999999999999999999999` isn't a port number".to_string())
    );
}

#[test]
fn workers_in_range_takes_up_to_the_processors() {
    assert_eq!(workers_in_range("4", 8), Ok(4));
    assert_eq!(workers_in_range("8", 8), Ok(8));
    assert_eq!(workers_in_range("0", 8), Ok(0));
    assert_eq!(
        workers_in_range("9", 8),
        Err("num of workers 9 is greater then the available CPU's 8".to_string())
    );
    assert_eq!(workers_in_range("four", 8), Err("`four` isn't a valid worker number".to_string()));
    assert_eq!(workers_in_range("65536", 100_000), Ok(0));
    assert_eq!(workers_in_range("65537", 100_000), Ok(1));
    let cpus = num_cpus::get();
    assert_eq!(num_workers_in_range("1"), Ok(1));
    assert_eq!(
        num_workers_in_range(&(cpus + 1).to_string()),
        Err(format!("num of workers {} is greater then the available CPU's {}", cpus + 1, cpus))
    );
    assert_eq!(num_workers_in_range("x"), Err("`x` isn't a valid worker number".to_string()));
}

#[test]
fn errors_show_their_kind_and_message() {
    let message = || "m".to_string();
    assert_eq!(SchedulerError::ConfigLoadError(message()).to_string(), "Config load error: m");
    assert_eq!(SchedulerError::PoolCreationError(message()).to_string(), "Pool creation error: m");
    assert_eq!(SchedulerError::TaskExecutionError(message()).to_string(), "Task execution error: m");
    assert_eq!(SchedulerError::SchedulerUnimplemented(message()).to_string(), "Unimplemented: m");
    assert_eq!(
        SchedulerError::SchedulerServiceError(message()).to_string(),
        "Scheduler service error: m"
    );
    assert_eq!(SchedulerError::LoggerSetupError(message()).to_string(), "Scheduler logger error: m");
    assert_eq!(
        SchedulerError::DataLayerError(message()).to_string(),
        "Scheduler data layer error: m"
    );
    assert_eq!(SchedulerError::DataLayerError(String::new()).to_string(), "Scheduler data layer error: ");
}

#[test]
fn task_states_on_the_wire() {
    assert_eq!(TaskState::Pending.as_i32(), 0);
    assert_eq!(TaskState::Success.as_i32(), 1);
    assert_eq!(TaskState::Fail.as_i32(), 2);
    assert_eq!(TaskState::from_i32(0), Some(TaskState::Pending));
    assert_eq!(TaskState::from_i32(1), Some(TaskState::Success));
    assert_eq!(TaskState::from_i32(2), Some(TaskState::Fail));
    assert_eq!(TaskState::from_i32(3), None);
    assert_eq!(TaskState::from_i32(-1), None);
}

#[test]
fn config_format_goes_by_the_end_of_the_name() {
    assert_eq!(config_format("configs.yaml").unwrap(), ConfigFormat::Yaml);
    assert_eq!(config_format("tests/yaml_test.yml").unwrap(), ConfigFormat::Yaml);
    assert_eq!(config_format("a.json").unwrap(), ConfigFormat::Json);
    assert_eq!(config_format(".json").unwrap(), ConfigFormat::Json);
    for path in ["configs.toml", "yaml", "configs.yaml.bak", "", "configs.JSON"] {
        match config_format(path) {
            Err(SchedulerError::ConfigLoadError(message)) => {
                assert_eq!(message, "Unsupported configuration file format.")
            }
            _ => panic!("{} was taken for a configuration", path),
        }
    }
}

#[test]
fn config_of_a_file() {
    let file = SerdeConfig {
        node_type: NodeType::Worker,
        num_workers: 4,
        grpc_port: 50051,
        graceful_timeout: 30,
        load_balancer: LoadBalancer::RoundRobin,
        heartbeat_interval: Some(WrapperDuration { seconds: 2, nanos: 5 }),
    };
    assert_eq!(file.node_type, NodeType::Worker);
    assert_eq!(file.num_workers, 4);
    assert_eq!(file.grpc_port, 50051);
    assert_eq!(
        config_from(file),
        Config {
            node_type: protot::internal::config::NodeType::Worker,
            num_workers: 4,
            grpc_port: 50051,
            graceful_timeout: 30,
            load_balancer: protot::internal::config::LoadBalancer::RoundRobin,
            heartbeat_interval: Some(Duration { seconds: 2, nanos: 5 }),
            data_store: None,
        }
    );
    let single = SerdeConfig { node_type: NodeType::SingleProcess, heartbeat_interval: None, ..file };
    assert_eq!(config_from(single).node_type, protot::internal::config::NodeType::SingleProcess);
    assert_eq!(config_from(single).heartbeat_interval, None);
    let scheduler = SerdeConfig { node_type: NodeType::Scheduler, ..file };
    assert_eq!(config_from(scheduler).node_type, protot::internal::config::NodeType::Scheduler);
}

#[test]
fn config_errors() {
    match load_failed("Os { code: 2 }") {
        SchedulerError::ConfigLoadError(m) => assert_eq!(m, "failed to load configurations: Os { code: 2 }"),
        _ => panic!("wrong kind"),
    }
    match deserialize_failed(ConfigFormat::Yaml, "e") {
        SchedulerError::ConfigLoadError(m) => assert_eq!(m, "failed to deserialize from yaml: e"),
        _ => panic!("wrong kind"),
    }
    match deserialize_failed(ConfigFormat::Json, "e") {
        SchedulerError::ConfigLoadError(m) => assert_eq!(m, "failed to deserialize from json: e"),
        _ => panic!("wrong kind"),
    }
}

#[test]
fn logo_and_metadata() {
    let logo = get_ascii_logo();
    assert!(logo.starts_with("\n"));
    assert!(logo.contains("|  _  |___ ___| |_ ___|_   _|"));
    assert_eq!(logo.lines().count(), 8);
    let rule = "=".repeat(60);
    let expected = format!(
        "{}\n{:<16}{}\n{:<16}{}\n{:<16}{}\n{:<16}{}\n{:<16}{}\n{}",
        rule, "Application", "protot", "Version", "0.1.0", "Authors", "", "Description", "",
        "Github", "", rule
    );
    assert_eq!(get_protot_metadata(), expected);
    assert!(get_protot_metadata().contains("Application     protot\n"));
}

#[test]
fn clean_host_drops_the_quotes() {
    assert_eq!(clean_host("\"redis://127.0.0.1/\""), "redis://127.0.0.1/");
    assert_eq!(clean_host("redis://127.0.0.1/"), "redis://127.0.0.1/");
    assert_eq!(clean_host("\"\"\""), "");
    assert_eq!(clean_host(""), "");
    assert_eq!(clean_host("a\"b\"c"), "abc");
    assert_eq!(clean_host("ñ\"'"), "ñ'");
}

fn execution(payload: Option<Any>) -> ExecuteRequest {
    ExecuteRequest {
        task: Some(Task { id: "task-1".to_string(), payload }),
        execution_id: "0".to_string(),
    }
}

#[test]
fn task_execution_is_written_under_the_key_of_the_task() {
    let type_url = "type.googleapis.com/google.protobuf.Struct".to_string();
    let value = vec![10, 3, b'a', b'"', 0xff];
    let payload = Any { type_url: type_url.clone(), value: value.clone() };
    let write = add_task_execution(&execution(Some(payload))).unwrap();
    let mut any = protobuf::well_known_types::any::Any::new();
    any.type_url = type_url.clone();
    any.value = value;
    assert_eq!(
        write,
        HashWrite {
            key: "task:task-1".to_string(),
            field: "execution".to_string(),
            value: any.to_string(),
        }
    );
    assert_ne!(write.value, type_url);
    assert!(write.value.starts_with("type_url: \"type.googleapis.com/google.protobuf.Struct\""));
}

#[test]
fn task_execution_needs_a_task_and_a_payload() {
    match add_task_execution(&ExecuteRequest { task: None, execution_id: String::new() }) {
        Err(SchedulerError::DataLayerError(m)) => assert_eq!(m, "Task is missing in ExecuteRequest"),
        _ => panic!("a request without a task was written"),
    }
    match add_task_execution(&execution(None)) {
        Err(SchedulerError::DataLayerError(m)) => assert_eq!(m, "Payload is missing in Task"),
        _ => panic!("a task without a payload was written"),
    }
}

#[test]
fn data_store_errors() {
    match open_failed("h", "InvalidClientConfig") {
        SchedulerError::DataLayerError(m) => {
            assert_eq!(m, "Error when calling redis host: h InvalidClientConfig")
        }
        _ => panic!("wrong kind"),
    }
    match connect_failed("redis://h") {
        SchedulerError::DataLayerError(m) => assert_eq!(m, "Unable to connect to redis host: redis://h"),
        _ => panic!("wrong kind"),
    }
    match write_failed() {
        SchedulerError::DataLayerError(m) => assert_eq!(m, "Failed to add task execution"),
        _ => panic!("wrong kind"),
    }
    assert_eq!(surface(Ok(())), None);
    assert_eq!(
        surface(Err(write_failed())),
        Some("Scheduler data layer error: Failed to add task execution".to_string())
    );
}

#[test]
fn metrics_count() {
    let mut metrics = register_metrics();
    assert_eq!(metrics.queued, 0);
    increment_task(&mut metrics, WorkerPoolTaskType::Queued);
    increment_task(&mut metrics, WorkerPoolTaskType::Queued);
    increment_task(&mut metrics, WorkerPoolTaskType::Executed);
    increment_task(&mut metrics, WorkerPoolTaskType::Panic);
    increment_task(&mut metrics, WorkerPoolTaskType::Dispatched);
    decrement_task_queue(&mut metrics);
    assert_eq!((metrics.queued, metrics.executed, metrics.panic, metrics.dispatched), (1, 1, 1, 1));
    decrement_task_queue(&mut metrics);
    decrement_task_queue(&mut metrics);
    assert_eq!(metrics.queued, -1);
    metrics.executed = i64::MAX;
    increment_task(&mut metrics, WorkerPoolTaskType::Executed);
    assert_eq!(metrics.executed, i64::MIN);
    metrics.queued = i64::MIN;
    decrement_task_queue(&mut metrics);
    assert_eq!(metrics.queued, i64::MAX);
    set_worker_pool_metric(&mut metrics, WorkerPoolMetricType::TotalWorkers, 4);
    set_worker_pool_metric(&mut metrics, WorkerPoolMetricType::Active, 3);
    assert_eq!((metrics.total_workers, metrics.active), (4, 3));
    set_worker_pool_metric(&mut metrics, WorkerPoolMetricType::Active, usize::MAX);
    assert_eq!(metrics.active, i64::MAX);
    assert_eq!(WorkerPoolMetricType::TotalWorkers.label(), "total_workers");
    assert_eq!(WorkerPoolMetricType::Active.label(), "active");
    assert_eq!(WorkerPoolTaskType::Executed.label(), "executed");
    assert_eq!(WorkerPoolTaskType::Panic.label(), "panic");
    assert_eq!(WorkerPoolTaskType::Queued.label(), "queued");
    assert_eq!(WorkerPoolTaskType::Dispatched.label(), "dispatched");
}

#[test]
fn utilization_has_one_row_for_each_worker() {
    let mut metrics = register_metrics();
    update_worker_utilization(&mut metrics, 1, 10, 100);
    update_worker_utilization(&mut metrics, 0, 5, 50);
    update_worker_utilization(&mut metrics, 1, 20, 200);
    assert_eq!(
        metrics.utilization,
        vec![
            WorkerUtilization { worker_id: 1, active_nanos: 20, total_nanos: 200 },
            WorkerUtilization { worker_id: 0, active_nanos: 5, total_nanos: 50 },
        ]
    );
}

#[test]
fn init_overrides_the_loaded_settings() {
    let loaded = Config {
        node_type: protot::internal::config::NodeType::SingleProcess,
        num_workers: 9,
        grpc_port: 1,
        graceful_timeout: 30,
        load_balancer: protot::internal::config::LoadBalancer::RoundRobin,
        heartbeat_interval: Some(Duration { seconds: 2, nanos: 0 }),
        data_store: Some(DataStore { store_type: 3, host: "old".to_string() }),
    };
    let kept = init_overrides(loaded, None, 4, 44880);
    assert_eq!(kept.node_type, protot::internal::config::NodeType::Scheduler);
    assert_eq!((kept.num_workers, kept.grpc_port, kept.graceful_timeout), (4, 44880, 30));
    assert_eq!(kept.heartbeat_interval, Some(Duration { seconds: 2, nanos: 0 }));
    assert_eq!(kept.data_store, Some(DataStore { store_type: 3, host: "old".to_string() }));
    let given = init_overrides(kept, Some("redis://h".to_string()), u16::MAX, 1);
    assert_eq!(given.data_store, Some(DataStore { store_type: 0, host: "redis://h".to_string() }));
    assert_eq!((given.num_workers, given.grpc_port), (65535, 1));
    let empty = Config::default();
    assert_eq!(empty.node_type, protot::internal::config::NodeType::SingleProcess);
    assert_eq!((empty.num_workers, empty.grpc_port, empty.graceful_timeout), (0, 0, 0));
    assert_eq!(empty.data_store, None);
}
