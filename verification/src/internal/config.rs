//! The settings that the scheduler is started with.

use vstd::prelude::*;

verus! {

/// What a process of the system is there to do.
#[derive(Clone, Copy, Debug, PartialEq, Eq, Structural)]
pub enum NodeType {
    SingleProcess,
    Worker,
    Scheduler,
}

/// How the scheduler picks the worker for a task.
#[derive(Clone, Copy, Debug, PartialEq, Eq, Structural)]
pub enum LoadBalancer {
    RoundRobin,
}

/// A span of time in seconds and nanoseconds, as the wire carries it.
#[derive(Clone, Copy, Debug, PartialEq, Eq, Structural)]
pub struct Duration {
    pub seconds: i64,
    pub nanos: i32,
}

/// Where the data store is, and of what kind: kind 0 is Redis.
#[derive(Debug, PartialEq, Eq)]
pub struct DataStore {
    pub store_type: i32,
    pub host: String,
}

/// The settings of one scheduler process.
#[derive(Debug, PartialEq, Eq)]
pub struct Config {
    pub node_type: NodeType,
    pub num_workers: i32,
    pub grpc_port: i32,
    pub graceful_timeout: u64,
    pub load_balancer: LoadBalancer,
    pub heartbeat_interval: Option<Duration>,
    pub data_store: Option<DataStore>,
}

impl Default for Config {
    /// The settings of a process that was told nothing: a single process
    /// without workers, port, timeout or data store.
    fn default() -> (r: Self)
        ensures
            r == (Config {
                node_type: NodeType::SingleProcess,
                num_workers: 0,
                grpc_port: 0,
                graceful_timeout: 0,
                load_balancer: LoadBalancer::RoundRobin,
                heartbeat_interval: None,
                data_store: None,
            }),
    {
        Config {
            node_type: NodeType::SingleProcess,
            num_workers: 0,
            grpc_port: 0,
            graceful_timeout: 0,
            load_balancer: LoadBalancer::RoundRobin,
            heartbeat_interval: None,
            data_store: None,
        }
    }
}

impl NodeType {
    /// The name of the node type in configuration files.
    pub open spec fn name(self) -> Seq<char> {
        match self {
            NodeType::SingleProcess => "SINGLE_PROCESS"@,
            NodeType::Worker => "WORKER"@,
            NodeType::Scheduler => "SCHEDULER"@,
        }
    }

    /// The name of the node type in configuration files.
    pub fn as_str_name(self) -> (r: &'static str)
        ensures
            r@ == self.name(),
    {
        match self {
            NodeType::SingleProcess => "SINGLE_PROCESS",
            NodeType::Worker => "WORKER",
            NodeType::Scheduler => "SCHEDULER",
        }
    }
}

} // verus!
