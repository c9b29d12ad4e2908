//! The messages that cross the wire, as plain values.

pub mod config;
pub mod scheduler;
pub mod task;
