//! The scheduling engine: jobs, the worker pool that runs them in process,
//! the fabric of remote workers and the balancer that picks among them.

pub mod grpc_executor;
pub mod job;
pub mod load_balancer;
pub mod pool_state;
pub mod worker;
pub mod worker_pool;
