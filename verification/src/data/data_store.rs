//! What the scheduler asks of a data store.

use crate::internal::scheduler::ExecuteRequest;
use crate::internal::task::TaskState;
use crate::utils::error::SchedulerError;
use vstd::prelude::*;

verus! {

/// How an operation on a data store can fail.
#[derive(Debug)]
pub enum DataStoreError {
    /// What was asked for is not there.
    NotFound,
    /// What was to be added is there already.
    Duplicate,
    /// The store itself failed.
    InternalError(String),
}

/// A store of task executions.
pub trait DataStore: Send + Sync + 'static {
    /// Adds an execution.
    fn add_task_execution(&self, execute: ExecuteRequest) -> Result<(), SchedulerError>;

    /// The executions in `state`, by worker.
    fn get_task_executions_by_worker(&self, state: TaskState) -> Result<
        Vec<ExecuteRequest>,
        SchedulerError,
    >;

    /// The executions in `state`.
    fn get_tasks_executions_by_state(&self, state: TaskState) -> Result<
        Vec<ExecuteRequest>,
        SchedulerError,
    >;

    /// Moves an execution to `new_state`.
    fn update_task_execution_state(
        &self,
        task_id: &str,
        execution_id: &str,
        new_state: &TaskState,
    ) -> Result<(), SchedulerError>;
}

/// What the scheduler makes of the outcome of a write to its data store: a
/// failure is not fatal to the dispatch, but it is reported. Returns the
/// line to report, if there is one.
pub fn surface(outcome: Result<(), SchedulerError>) -> (r: Option<String>)
    ensures
        match outcome {
            Ok(_) => r is None,
            Err(e) => r matches Some(line) && line@ == e.heading() + e.message(),
        },
{
    match outcome {
        Ok(_) => None,
        Err(e) => Some(e.to_string()),
    }
}

} // verus!
