//! The configuration as it stands in a file, and what the scheduler makes
//! of it.

use crate::internal::config::Config;
use crate::internal::config::Duration;
use crate::utils::error::SchedulerError;
use crate::utils::text::ends_with;
use crate::utils::text::has_suffix;
use vstd::prelude::*;
use vstd::string::StringExecFns;

verus! {

/// What a process of the system is there to do, as a file says it.
#[derive(Clone, Copy, Debug, PartialEq, Eq, Structural)]
pub enum NodeType {
    SingleProcess,
    Worker,
    Scheduler,
}

/// How the scheduler picks the worker for a task, as a file says it.
#[derive(Clone, Copy, Debug, PartialEq, Eq, Structural)]
pub enum LoadBalancer {
    RoundRobin,
}

/// A span of time, as a file says it.
#[derive(Clone, Copy, Debug, PartialEq, Eq, Structural)]
pub struct WrapperDuration {
    pub seconds: i64,
    pub nanos: i32,
}

/// The settings of a scheduler, as a file holds them.
#[derive(Clone, Copy, Debug, PartialEq, Eq, Structural)]
pub struct SerdeConfig {
    pub node_type: NodeType,
    pub num_workers: i32,
    pub grpc_port: i32,
    pub graceful_timeout: u64,
    pub load_balancer: LoadBalancer,
    pub heartbeat_interval: Option<WrapperDuration>,
}

/// The formats of configuration files.
#[derive(Clone, Copy, Debug, PartialEq, Eq, Structural)]
pub enum ConfigFormat {
    Yaml,
    Json,
}

/// The format of the file at `path`, going by the end of its name.
pub open spec fn format_of(path: Seq<char>) -> Option<ConfigFormat> {
    if has_suffix(path, ".yaml"@) || has_suffix(path, ".yml"@) {
        Some(ConfigFormat::Yaml)
    } else if has_suffix(path, ".json"@) {
        Some(ConfigFormat::Json)
    } else {
        None
    }
}

/// The text of the error for a file of no known format.
pub open spec fn format_refused() -> Seq<char> {
    "Unsupported configuration file format."@
}

/// The format of the file at `path`: YAML for names that end in `.yaml` or
/// `.yml`, JSON for names that end in `.json`, and an error for all others.
pub fn config_format(path: &str) -> (r: Result<ConfigFormat, SchedulerError>)
    ensures
        match format_of(path@) {
            Some(format) => r == Ok::<ConfigFormat, SchedulerError>(format),
            None => r matches Err(e) && e is ConfigLoadError && e.message() == format_refused(),
        },
{
    if ends_with(path, ".yaml") || ends_with(path, ".yml") {
        Ok(ConfigFormat::Yaml)
    } else if ends_with(path, ".json") {
        Ok(ConfigFormat::Json)
    } else {
        Err(
            SchedulerError::ConfigLoadError(
                String::from_str("Unsupported configuration file format."),
            ),
        )
    }
}

/// The settings that the scheduler runs with for the settings `config` of
/// a file. They name no data store.
pub open spec fn loaded(config: SerdeConfig) -> Config {
    Config {
        node_type: match config.node_type {
            NodeType::Scheduler => crate::internal::config::NodeType::Scheduler,
            NodeType::Worker => crate::internal::config::NodeType::Worker,
            NodeType::SingleProcess => crate::internal::config::NodeType::SingleProcess,
        },
        num_workers: config.num_workers,
        grpc_port: config.grpc_port,
        graceful_timeout: config.graceful_timeout,
        load_balancer: crate::internal::config::LoadBalancer::RoundRobin,
        heartbeat_interval: match config.heartbeat_interval {
            Some(interval) => Some(Duration { seconds: interval.seconds, nanos: interval.nanos }),
            None => None,
        },
        data_store: None,
    }
}

/// The settings that the scheduler runs with for the settings `config` of
/// a file.
pub fn config_from(config: SerdeConfig) -> (r: Config)
    ensures
        r == loaded(config),
{
    let heartbeat_interval = match config.heartbeat_interval {
        Some(custom_duration) => Some(
            Duration { seconds: custom_duration.seconds, nanos: custom_duration.nanos },
        ),
        None => None,
    };
    Config {
        grpc_port: config.grpc_port,
        node_type: match config.node_type {
            NodeType::Scheduler => crate::internal::config::NodeType::Scheduler,
            NodeType::Worker => crate::internal::config::NodeType::Worker,
            _ => crate::internal::config::NodeType::SingleProcess,
        },
        num_workers: config.num_workers,
        graceful_timeout: config.graceful_timeout,
        load_balancer: match config.load_balancer {
            LoadBalancer::RoundRobin => crate::internal::config::LoadBalancer::RoundRobin,
        },
        heartbeat_interval,
        data_store: None,
    }
}

/// The error for a file that could not be read, with the words of the
/// failure.
pub fn load_failed(detail: &str) -> (e: SchedulerError)
    ensures
        e is ConfigLoadError,
        e.message() == "failed to load configurations: "@ + detail@,
{
    SchedulerError::ConfigLoadError(
        String::from_str("failed to load configurations: ").concat(detail),
    )
}

/// The error for a file in `format` that could not be understood, with
/// the words of the failure.
pub fn deserialize_failed(format: ConfigFormat, detail: &str) -> (e: SchedulerError)
    ensures
        e is ConfigLoadError,
        e.message() == (match format {
            ConfigFormat::Yaml => "failed to deserialize from yaml: "@,
            ConfigFormat::Json => "failed to deserialize from json: "@,
        }) + detail@,
{
    let heading = match format {
        ConfigFormat::Yaml => "failed to deserialize from yaml: ",
        ConfigFormat::Json => "failed to deserialize from json: ",
    };
    SchedulerError::ConfigLoadError(String::from_str(heading).concat(detail))
}

} // verus!
