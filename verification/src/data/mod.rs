//! Where the scheduler keeps its executions.

pub mod data_store;
pub mod redis_store;
