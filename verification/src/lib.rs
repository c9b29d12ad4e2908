//! A task-dispatching scheduler core: an in-process worker pool, a fabric of
//! remote worker sessions and the dispatch front that chooses between them.
//!
//! Everything here is a plain value with a mathematical view. Threads, timers
//! and streams belong to the program around the library: it hands each event
//! to one of these functions together with the state, and carries out the
//! action that comes back.

pub mod client;
pub mod data;
pub mod engine;
pub mod internal;
pub mod server;
pub mod utils;

use crate::engine::pool_state::PoolState;
use crate::engine::worker_pool::Builder;
use crate::engine::worker_pool::TaskRegistry;
use crate::engine::worker_pool::WorkerPool;
use crate::internal::config::Config;
use crate::internal::config::DataStore;
use crate::internal::config::Duration;
use crate::internal::config::NodeType;
use crate::server::address_refused;
use crate::server::DistributedServer;
use crate::server::Interval;
use crate::server::is_port;
use crate::server::listen_on;
use crate::server::SingleProcessServer;
use crate::server::start_scheduler_grpc_server;
use crate::server::start_single_process_grpc_server;
use crate::utils::error::SchedulerError;
use vstd::prelude::*;
use vstd::string::StringExecFns;

verus! {

/// What a scheduler process is started with besides its configuration.
pub struct ProcessOptions {
    /// The name of the pool, which names its threads.
    pub process_name: String,
    /// The executors of the tasks.
    pub task_executors: TaskRegistry,
}

impl Default for ProcessOptions {
    /// A process named `scheduler` without executors.
    fn default() -> (r: Self)
        ensures
            r.process_name@ == "scheduler"@,
            r.task_executors.wf(),
            r.task_executors@ == Seq::<Seq<char>>::empty(),
    {
        ProcessOptions {
            process_name: String::from_str("scheduler"),
            task_executors: TaskRegistry::new(),
        }
    }
}

/// The size of the stack of each worker's thread: 32 MiB.
pub const WORKER_STACK_SIZE: usize = 33_554_432;

/// The heartbeat interval for the interval that the configuration gives:
/// its seconds and nanoseconds as unsigned numbers of the same bits, and
/// one second where the configuration gives none.
pub open spec fn heartbeat_interval_of(prost_duration: Option<Duration>) -> Interval {
    match prost_duration {
        Some(duration) => Interval { secs: duration.seconds as u64, nanos: duration.nanos as u32 },
        None => Interval { secs: 1, nanos: 0 },
    }
}

/// The heartbeat interval for the interval that the configuration gives.
pub fn prost_duration_to_std_duration(prost_duration: Option<Duration>) -> (r: Interval)
    ensures
        r == heartbeat_interval_of(prost_duration),
{
    match prost_duration {
        Some(duration) => {
            let seconds = duration.seconds;
            let nanos = duration.nanos;
            Interval {
                secs: #[verifier::truncate]
                (seconds as u64),
                nanos: #[verifier::truncate]
                (nanos as u32),
            }
        },
        None => Interval { secs: 1, nanos: 0 },
    }
}

/// The text of the error for a configuration that asks for no worker.
pub open spec fn workers_refused() -> Seq<char> {
    "the number of workers must be at least 1"@
}

/// Whether `pool` is the pool that a scheduler with the configuration
/// `cfg` and the options `opts` starts with: fresh, with the configured
/// number of workers, named after the process, with the registry of the
/// options.
pub open spec fn is_pool_of(pool: WorkerPool, cfg: Config, opts: ProcessOptions) -> bool {
    is_pool_for(pool, cfg.num_workers as nat, opts.process_name@, opts.task_executors)
}

/// Whether `pool` is a fresh pool of `workers` workers, named `name`, with
/// the stack size of a scheduler's workers and with `registry` as its
/// executors.
pub open spec fn is_pool_for(
    pool: WorkerPool,
    workers: nat,
    name: Seq<char>,
    registry: TaskRegistry,
) -> bool {
    &&& pool.wf()
    &&& pool@ == PoolState::fresh(workers, false)
    &&& pool.shared().name() == Some(name)
    &&& pool.shared().stack_size() == Some(WORKER_STACK_SIZE)
    &&& pool.registry() == registry
}

/// Builds the pool of a scheduler.
fn build_pool(cfg: &Config, opts: ProcessOptions) -> (r: Result<WorkerPool, SchedulerError>)
    requires
        opts.task_executors.wf(),
    ensures
        cfg.num_workers < 1 ==> (r matches Err(e) && e is PoolCreationError && e.message()
            == workers_refused()),
        cfg.num_workers >= 1 ==> (r matches Ok(pool) && is_pool_of(pool, *cfg, opts)),
{
    if cfg.num_workers < 1 {
        return Err(
            SchedulerError::PoolCreationError(
                String::from_str("the number of workers must be at least 1"),
            ),
        );
    }
    Builder::new().num_workers(cfg.num_workers as usize).name(opts.process_name).thread_stack_size(
        WORKER_STACK_SIZE,
    ).executors(opts.task_executors).build()
}

/// Makes a scheduler that runs its tasks in process ready to serve. A
/// configuration that asks for no worker is refused, and so is one with a
/// port that cannot be listened on.
pub fn init_single_process_grpc_scheduler(cfg: Config, opts: ProcessOptions) -> (r: Result<
    SingleProcessServer,
    SchedulerError,
>)
    requires
        opts.task_executors.wf(),
    ensures
        cfg.num_workers < 1 ==> (r matches Err(e) && e is PoolCreationError && e.message()
            == workers_refused()),
        cfg.num_workers >= 1 && !is_port(cfg.grpc_port) ==> (r matches Err(e)
            && e is SchedulerServiceError && e.message() == address_refused()),
        cfg.num_workers >= 1 && is_port(cfg.grpc_port) ==> (r matches Ok(server) && server.wf()
            && server.address@ == listen_on(cfg.grpc_port) && server.graceful_timeout
            == cfg.graceful_timeout && !server.interrupt_received && is_pool_of(
            server.service.shared_data.worker_pool,
            cfg,
            opts,
        )),
{
    let pool = match build_pool(&cfg, opts) {
        Ok(pool) => pool,
        Err(error) => {
            return Err(error);
        },
    };
    start_single_process_grpc_server(cfg.grpc_port, pool, cfg.graceful_timeout)
}

/// Makes a scheduler that hands its tasks to remote workers ready to
/// serve. A configuration that asks for no worker is refused, and so is one
/// with a port that cannot be listened on.
pub fn init_distributed_grpc_scheduler(cfg: Config, opts: ProcessOptions) -> (r: Result<
    DistributedServer,
    SchedulerError,
>)
    requires
        opts.task_executors.wf(),
    ensures
        cfg.num_workers < 1 ==> (r matches Err(e) && e is PoolCreationError && e.message()
            == workers_refused()),
        cfg.num_workers >= 1 && !is_port(cfg.grpc_port) ==> (r matches Err(e)
            && e is SchedulerServiceError && e.message() == address_refused()),
        cfg.num_workers >= 1 && is_port(cfg.grpc_port) ==> (r matches Ok(server) && server.wf()
            && server.address@ == listen_on(cfg.grpc_port) && server.graceful_timeout
            == cfg.graceful_timeout && server.heartbeat_interval == heartbeat_interval_of(
            cfg.heartbeat_interval,
        ) && !server.interrupt_received && server.service.executions == 0
            && server.workers.records().len() == 0 && is_pool_of(
            server.service.shared_data.worker_pool,
            cfg,
            opts,
        )),
{
    let heartbeat_interval = prost_duration_to_std_duration(cfg.heartbeat_interval);
    let pool = match build_pool(&cfg, opts) {
        Ok(pool) => pool,
        Err(error) => {
            return Err(error);
        },
    };
    start_scheduler_grpc_server(cfg.grpc_port, pool, cfg.graceful_timeout, heartbeat_interval)
}

/// A scheduler that is ready to serve.
pub enum Started {
    /// One that runs its tasks in process.
    SingleProcess(SingleProcessServer),
    /// One that hands its tasks to remote workers, and the data store that
    /// it is to keep its executions in.
    Scheduler(DistributedServer, DataStore),
}

/// The text of the error for a scheduler without a data store.
pub open spec fn data_store_missing() -> Seq<char> {
    "Must set up a data store configurations"@
}

/// The text of the error for a data store of a kind that is not known.
pub open spec fn data_store_refused() -> Seq<char> {
    "Unsupported data store type"@
}

/// The text of the error for a node type that cannot be started.
pub open spec fn node_refused(node_type: NodeType) -> Seq<char> {
    "Unimplemented node type "@ + node_type.name()
}

/// Whether a scheduler can be started with the configuration `cfg`: it is
/// no worker, it has a data store of a known kind where it is a scheduler
/// for remote workers, it has a worker, and it has a port.
pub open spec fn can_start(cfg: Config) -> bool {
    &&& cfg.node_type != NodeType::Worker
    &&& cfg.node_type == NodeType::Scheduler ==> (cfg.data_store matches Some(store)
        && store.store_type == 0)
    &&& cfg.num_workers >= 1
    &&& is_port(cfg.grpc_port)
}

/// Whether `error` is the error with which the configuration `cfg` is
/// refused: the first that applies of a node type that cannot be started,
/// a missing data store, a data store of an unknown kind, no worker, and
/// no port.
pub open spec fn is_refusal_of(cfg: Config, error: SchedulerError) -> bool {
    if cfg.node_type == NodeType::Worker {
        error is SchedulerUnimplemented && error.message() == node_refused(NodeType::Worker)
    } else if cfg.node_type == NodeType::Scheduler && cfg.data_store is None {
        error is DataLayerError && error.message() == data_store_missing()
    } else if cfg.node_type == NodeType::Scheduler && cfg.data_store->0.store_type != 0 {
        error is DataLayerError && error.message() == data_store_refused()
    } else if cfg.num_workers < 1 {
        error is PoolCreationError && error.message() == workers_refused()
    } else {
        error is SchedulerServiceError && error.message() == address_refused()
    }
}

/// Starts the scheduler that `configurations` asks for, with `registry` as
/// the executors of its tasks.
///
/// A single process is started as `init_single_process_grpc_scheduler`
/// says. A scheduler for remote workers needs a data store of a known
/// kind, and is then started as `init_distributed_grpc_scheduler` says,
/// and returned with its data store. A worker cannot be started this way.
pub fn start(registry: TaskRegistry, configurations: Config) -> (r: Result<Started, SchedulerError>)
    requires
        registry.wf(),
    ensures
        r is Ok <==> can_start(configurations),
        r matches Err(error) ==> is_refusal_of(configurations, error),
        r matches Ok(Started::SingleProcess(server)) ==> {
            &&& configurations.node_type == NodeType::SingleProcess
            &&& server.wf()
            &&& server.address@ == listen_on(configurations.grpc_port)
            &&& server.graceful_timeout == configurations.graceful_timeout
            &&& !server.interrupt_received
            &&& is_pool_for(
                server.service.shared_data.worker_pool,
                configurations.num_workers as nat,
                "scheduler"@,
                registry,
            )
        },
        r matches Ok(Started::Scheduler(server, store)) ==> {
            &&& configurations.node_type == NodeType::Scheduler
            &&& configurations.data_store == Some(store)
            &&& server.wf()
            &&& server.address@ == listen_on(configurations.grpc_port)
            &&& server.graceful_timeout == configurations.graceful_timeout
            &&& server.heartbeat_interval == heartbeat_interval_of(
                configurations.heartbeat_interval,
            )
            &&& !server.interrupt_received
            &&& server.service.executions == 0
            &&& server.workers.records().len() == 0
            &&& is_pool_for(
                server.service.shared_data.worker_pool,
                configurations.num_workers as nat,
                "scheduler"@,
                registry,
            )
        },
{
    let opts = ProcessOptions { process_name: String::from_str("scheduler"), task_executors: registry };
    match configurations.node_type {
        NodeType::SingleProcess => {
            match init_single_process_grpc_scheduler(configurations, opts) {
                Ok(server) => Ok(Started::SingleProcess(server)),
                Err(error) => Err(error),
            }
        },
        NodeType::Scheduler => {
            let store = match &configurations.data_store {
                Some(db) => {
                    if db.store_type != 0 {
                        return Err(
                            SchedulerError::DataLayerError(
                                String::from_str("Unsupported data store type"),
                            ),
                        );
                    }
                    DataStore { store_type: db.store_type, host: db.host.clone() }
                },
                None => {
                    return Err(
                        SchedulerError::DataLayerError(
                            String::from_str("Must set up a data store configurations"),
                        ),
                    );
                },
            };
            match init_distributed_grpc_scheduler(configurations, opts) {
                Ok(server) => Ok(Started::Scheduler(server, store)),
                Err(error) => Err(error),
            }
        },
        NodeType::Worker => Err(
            SchedulerError::SchedulerUnimplemented(
                String::from_str("Unimplemented node type ").concat(
                    configurations.node_type.as_str_name(),
                ),
            ),
        ),
    }
}

} // verus!
