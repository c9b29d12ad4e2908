//! The error that every fallible operation of the scheduler reports.

use vstd::prelude::*;
use vstd::string::StringExecFns;

verus! {

/// What went wrong, by the part of the scheduler that noticed it. Each
/// variant carries a text with the details.
#[derive(Debug)]
pub enum SchedulerError {
    /// The configuration could not be read or understood.
    ConfigLoadError(String),
    /// The worker pool could not be built.
    PoolCreationError(String),
    /// A task could not be handed to a worker.
    TaskExecutionError(String),
    /// The requested mode of operation is not offered.
    SchedulerUnimplemented(String),
    /// The RPC endpoint failed.
    SchedulerServiceError(String),
    /// The logger could not be set up.
    LoggerSetupError(String),
    /// The data store failed.
    DataLayerError(String),
}

impl SchedulerError {
    /// The text that the error carries.
    pub open spec fn message(&self) -> Seq<char> {
        match self {
            SchedulerError::ConfigLoadError(m) => m@,
            SchedulerError::PoolCreationError(m) => m@,
            SchedulerError::TaskExecutionError(m) => m@,
            SchedulerError::SchedulerUnimplemented(m) => m@,
            SchedulerError::SchedulerServiceError(m) => m@,
            SchedulerError::LoggerSetupError(m) => m@,
            SchedulerError::DataLayerError(m) => m@,
        }
    }

    /// The words that introduce an error of this kind when it is shown.
    pub open spec fn heading(&self) -> Seq<char> {
        match self {
            SchedulerError::ConfigLoadError(_) => "Config load error: "@,
            SchedulerError::PoolCreationError(_) => "Pool creation error: "@,
            SchedulerError::TaskExecutionError(_) => "Task execution error: "@,
            SchedulerError::SchedulerUnimplemented(_) => "Unimplemented: "@,
            SchedulerError::SchedulerServiceError(_) => "Scheduler service error: "@,
            SchedulerError::LoggerSetupError(_) => "Scheduler logger error: "@,
            SchedulerError::DataLayerError(_) => "Scheduler data layer error: "@,
        }
    }

    /// Whether two errors are of the same kind.
    pub open spec fn same_kind(&self, other: &SchedulerError) -> bool {
        match (self, other) {
            (SchedulerError::ConfigLoadError(_), SchedulerError::ConfigLoadError(_)) => true,
            (SchedulerError::PoolCreationError(_), SchedulerError::PoolCreationError(_)) => true,
            (SchedulerError::TaskExecutionError(_), SchedulerError::TaskExecutionError(_)) => true,
            (
                SchedulerError::SchedulerUnimplemented(_),
                SchedulerError::SchedulerUnimplemented(_),
            ) => true,
            (
                SchedulerError::SchedulerServiceError(_),
                SchedulerError::SchedulerServiceError(_),
            ) => true,
            (SchedulerError::LoggerSetupError(_), SchedulerError::LoggerSetupError(_)) => true,
            (SchedulerError::DataLayerError(_), SchedulerError::DataLayerError(_)) => true,
            _ => false,
        }
    }

    /// The error as one line of text: the heading of its kind, then its
    /// message.
    pub fn to_string(&self) -> (r: String)
        ensures
            r@ == self.heading() + self.message(),
    {
        match self {
            SchedulerError::ConfigLoadError(m) => String::from_str("Config load error: ").concat(
                m.as_str(),
            ),
            SchedulerError::PoolCreationError(m) => String::from_str(
                "Pool creation error: ",
            ).concat(m.as_str()),
            SchedulerError::TaskExecutionError(m) => String::from_str(
                "Task execution error: ",
            ).concat(m.as_str()),
            SchedulerError::SchedulerUnimplemented(m) => String::from_str("Unimplemented: ").concat(
                m.as_str(),
            ),
            SchedulerError::SchedulerServiceError(m) => String::from_str(
                "Scheduler service error: ",
            ).concat(m.as_str()),
            SchedulerError::LoggerSetupError(m) => String::from_str(
                "Scheduler logger error: ",
            ).concat(m.as_str()),
            SchedulerError::DataLayerError(m) => String::from_str(
                "Scheduler data layer error: ",
            ).concat(m.as_str()),
        }
    }
}

} // verus!
