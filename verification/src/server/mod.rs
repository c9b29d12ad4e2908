//! The two faces of the scheduler: the one that workers talk to and the one
//! that clients talk to, and the controller that starts and stops them.

pub mod metrics;
pub mod session;

use crate::engine::grpc_executor::all_cancelled;
use crate::engine::grpc_executor::all_pinged;
use crate::engine::grpc_executor::dispatched;
use crate::engine::grpc_executor::GrpcSharedState;
use crate::engine::grpc_executor::stale_evicted;
use crate::engine::grpc_executor::stale_ids;
use crate::engine::grpc_executor::with_room;
use crate::engine::load_balancer::LoadBalancer;
use crate::engine::load_balancer::RoundRobinBalancer;
use crate::engine::worker_pool::executor_not_found;
use crate::engine::worker_pool::pool_closed;
use crate::engine::worker_pool::stamped;
use crate::engine::worker_pool::task_missing;
use crate::engine::worker_pool::WorkerPool;
use crate::internal::scheduler::AssignTaskRequest;
use crate::internal::scheduler::AssignTaskRequestView;
use crate::internal::scheduler::ExecuteRequest;
use crate::internal::scheduler::ExecuteResponse;
use crate::internal::scheduler::ExecuteResponseView;
use crate::internal::scheduler::ScheduleRequest;
use crate::internal::scheduler::ScheduleResponse;
use crate::internal::scheduler::SchedulerMessage;
use crate::internal::scheduler::SchedulerMessageType;
use crate::internal::task::TaskState;
use crate::server::session::SchedulerServer;
use crate::utils::error::SchedulerError;
use crate::utils::status::Code;
use crate::utils::status::ErrorDetails;
use crate::utils::status::ErrorDetailsView;
use crate::utils::status::Status;
use crate::utils::status::StatusView;
use crate::utils::text::decimal_digits;
use crate::utils::text::decimal;
use crate::utils::text::lemma_decimal_injective;
use crate::utils::text::strings_view;
use std::sync::Arc;
use vstd::prelude::*;
use vstd::string::StringExecFns;

verus! {

/// What the services share: the worker pool.
pub struct SharedData {
    pub worker_pool: WorkerPool,
}

/// The failure with which a request to execute is refused for `error`,
/// given as the text that shows the error.
pub open spec fn execution_refused(error: Seq<char>) -> StatusView {
    StatusView {
        code: Code::FailedPrecondition,
        message: "request contains invalid arguments"@,
        details: Some(
            ErrorDetailsView {
                violation_type: "EXECUTOR"@,
                violation_subject: "WorkerPool"@,
                violation_description: "failed to execute task on worker pool: "@ + error,
                help_description: "documentation"@,
                help_url: "https://protot.io/docs/help"@,
                locale: "en-US"@,
                localized_message: "error executing task"@,
            },
        ),
    }
}

/// The text that shows a failure to execute a task with this message.
pub open spec fn task_error(message: Seq<char>) -> Seq<char> {
    "Task execution error: "@ + message
}

/// The failure with which every request to schedule is refused.
pub open spec fn scheduling_unimplemented() -> StatusView {
    StatusView {
        code: Code::Unimplemented,
        message: "request contains invalid arguments"@,
        details: Some(
            ErrorDetailsView {
                violation_type: "unimplemented"@,
                violation_subject: "schedule"@,
                violation_description: "admin schedule server isnt supporting scheduling of tasks"@,
                help_description: "description of link"@,
                help_url: "https://resource.example.local"@,
                locale: "en-US"@,
                localized_message: "message for the user"@,
            },
        ),
    }
}

/// The failure with which a request to execute is refused for `error`.
fn refuse(error: &SchedulerError) -> (r: Status)
    ensures
        r@ == execution_refused(error.heading() + error.message()),
{
    let description = String::from_str("failed to execute task on worker pool: ").concat(
        error.to_string().as_str(),
    );
    Status::with_error_details(
        Code::FailedPrecondition,
        "request contains invalid arguments",
        ErrorDetails {
            violation_type: String::from_str("EXECUTOR"),
            violation_subject: String::from_str("WorkerPool"),
            violation_description: description,
            help_description: String::from_str("documentation"),
            help_url: String::from_str("https://protot.io/docs/help"),
            locale: String::from_str("en-US"),
            localized_message: String::from_str("error executing task"),
        },
    )
}

/// The failure with which every request to schedule is refused.
fn refuse_schedule() -> (r: Status)
    ensures
        r@ == scheduling_unimplemented(),
{
    Status::with_error_details(
        Code::Unimplemented,
        "request contains invalid arguments",
        ErrorDetails {
            violation_type: String::from_str("unimplemented"),
            violation_subject: String::from_str("schedule"),
            violation_description: String::from_str(
                "admin schedule server isnt supporting scheduling of tasks",
            ),
            help_description: String::from_str("description of link"),
            help_url: String::from_str("https://resource.example.local"),
            locale: String::from_str("en-US"),
            localized_message: String::from_str("message for the user"),
        },
    )
}

/// The service for clients of a scheduler that runs its tasks in process.
pub struct SchedulerSingleProcessAdminService {
    pub shared_data: SharedData,
}

impl SchedulerSingleProcessAdminService {
    /// The invariant of the service: that of its pool.
    pub open spec fn wf(&self) -> bool {
        self.shared_data.worker_pool.wf()
    }

    /// A service on top of `shared_data`.
    pub fn new(shared_data: SharedData) -> (r: Self)
        ensures
            r.shared_data == shared_data,
    {
        SchedulerSingleProcessAdminService { shared_data }
    }

    /// Dispatches the task of `request` to the pool.
    ///
    /// The request is refused where it has no task, where no executor is
    /// registered under the name of the task, and where the pool takes no
    /// more jobs; the pool is then left as it was. Else a job is enqueued
    /// that calls the executor registered under the name of the task, and
    /// the answer names the task and the execution, whose identifier is
    /// the number of the job, in the state `Pending`.
    pub fn execute(&mut self, request: ExecuteRequest) -> (r: Result<ExecuteResponse, Status>)
        requires
            old(self).wf(),
            old(self).shared_data.worker_pool@.job_counter < usize::MAX,
        ensures
            final(self).wf(),
            final(self).shared_data.worker_pool.keeps(&old(self).shared_data.worker_pool),
            ({
                let before = old(self).shared_data.worker_pool;
                let after = final(self).shared_data.worker_pool;
                match request@.task {
                    None => {
                        &&& r matches Err(status)
                        &&& status@ == execution_refused(task_error(task_missing()))
                        &&& after@ == before@
                    },
                    Some(task) => {
                        if !before.registry()@.contains(task.id) {
                            &&& r matches Err(status)
                            &&& status@ == execution_refused(
                                task_error(executor_not_found(task.id)),
                            )
                            &&& after@ == before@
                        } else if !before@.connected {
                            &&& r matches Err(status)
                            &&& status@ == execution_refused(task_error(pool_closed()))
                            &&& after@ == before@
                        } else {
                            &&& r matches Ok(response)
                            &&& response@ == (ExecuteResponseView {
                                task_id: task.id,
                                execution_id: decimal_digits(before@.job_counter),
                                state: TaskState::Pending,
                            })
                            &&& after@ == before@.enqueue(after@.queue.last())
                            &&& after@.queue.last().id == before@.job_counter
                            &&& after@.queue.last().request() == stamped(
                                request@,
                                before@.job_counter,
                            )
                            &&& after@.queue.last().done() ==> before.registry().executor_of(
                                task.id,
                            ).executed(after@.queue.last().data)
                        }
                    },
                }
            }),
    {
        let task_name = match &request.task {
            Some(task) => task.id.clone(),
            None => {
                return Err(
                    refuse(
                        &SchedulerError::TaskExecutionError(
                            String::from_str("task execution must include valid data"),
                        ),
                    ),
                );
            },
        };
        let executor = match self.shared_data.worker_pool.executors().get_executor(
            task_name.as_str(),
        ) {
            Ok(executor) => Arc::clone(executor),
            Err(error) => {
                return Err(refuse(&error));
            },
        };
        let job = move |args: ExecuteRequest|
            ensures
                executor.executed(args),
            { executor.execute(args) };
        match self.shared_data.worker_pool.execute(job, request) {
            Ok(job_id) => Ok(
                ExecuteResponse {
                    task_id: task_name,
                    execution_id: decimal(job_id as u64),
                    state: TaskState::Pending,
                },
            ),
            Err(error) => Err(refuse(&error)),
        }
    }

    /// Refuses the request: tasks cannot be scheduled for later.
    pub fn schedule(&self, request: ScheduleRequest) -> (r: Result<ScheduleResponse, Status>)
        ensures
            r matches Err(status) && status@ == scheduling_unimplemented(),
    {
        let _ = request;
        Err(refuse_schedule())
    }
}

/// The service for clients of a scheduler that hands its tasks to remote
/// workers.
pub struct SchedulerAdminService {
    pub shared_data: SharedData,
    /// The number of executions dispatched so far, which names the next.
    pub executions: u64,
}

/// The message that assigns the task of `request` as execution number
/// `execution`.
pub open spec fn assignment_of(request: ExecuteRequest, execution: u64) -> AssignTaskRequestView {
    AssignTaskRequestView { task: request@.task, execution_id: decimal_digits(execution as nat) }
}

/// Two executions that are dispatched at different counts get different
/// identifiers.
pub proof fn lemma_execution_ids_differ(request: ExecuteRequest, first: u64, second: u64)
    requires
        first != second,
    ensures
        assignment_of(request, first).execution_id != assignment_of(request, second).execution_id,
{
    if decimal_digits(first as nat) == decimal_digits(second as nat) {
        lemma_decimal_injective(first as nat, second as nat);
    }
}

impl SchedulerAdminService {
    /// A service on top of `shared_data` that has dispatched nothing yet.
    pub fn new(shared_data: SharedData) -> (r: Self)
        ensures
            r.shared_data == shared_data,
            r.executions == 0,
    {
        SchedulerAdminService { shared_data, executions: 0 }
    }

    /// Dispatches the task of `request` to a remote worker.
    ///
    /// A request without a task is refused and changes nothing. Else the
    /// task is assigned under a fresh execution identifier, the number of
    /// executions so far in decimal, and the assignment is dispatched by
    /// the fabric, whose answer or failure is returned.
    pub fn execute<B: LoadBalancer>(
        &mut self,
        workers: &mut SchedulerServer<B>,
        request: ExecuteRequest,
    ) -> (r: Result<ExecuteResponse, Status>)
        requires
            old(workers).wf(),
        ensures
            final(workers).wf(),
            final(self).shared_data == old(self).shared_data,
            final(workers).shared_state.keeps(&old(workers).shared_state),
            request@.task is None ==> {
                &&& r matches Err(status)
                &&& status@ == execution_refused(task_error(task_missing()))
                &&& final(self).executions == old(self).executions
                &&& final(workers).records() == old(workers).records()
                &&& final(workers).shared_state.balancer == old(workers).shared_state.balancer
            },
            request@.task is Some ==> {
                &&& final(self).executions == (if old(self).executions == u64::MAX {
                    0
                } else {
                    old(self).executions + 1
                })
                &&& dispatched(
                    &old(workers).shared_state,
                    &final(workers).shared_state,
                    SchedulerMessage::assignment(assignment_of(request, old(self).executions)),
                    r,
                )
                &&& final(workers).shared_state.balancer.follows(
                    &old(workers).shared_state.balancer,
                    old(workers).records(),
                )
            },
    {
        if request.task.is_none() {
            return Err(
                refuse(
                    &SchedulerError::TaskExecutionError(
                        String::from_str("task execution must include valid data"),
                    ),
                ),
            );
        }
        let execution_id = decimal(self.executions);
        self.executions = self.executions.wrapping_add(1);
        let message = SchedulerMessage {
            scheduler_message_type: Some(
                SchedulerMessageType::AssignTask(
                    AssignTaskRequest { task: request.task, execution_id },
                ),
            ),
        };
        workers.shared_state.distribute_task(message)
    }

    /// Refuses the request: tasks cannot be scheduled for later.
    pub fn schedule(&self, request: ScheduleRequest) -> (r: Result<ScheduleResponse, Status>)
        ensures
            r matches Err(status) && status@ == scheduling_unimplemented(),
    {
        let _ = request;
        Err(refuse_schedule())
    }
}

/// A span of time in whole seconds and the nanoseconds beyond them.
#[derive(Clone, Copy, Debug, PartialEq, Eq, Structural)]
pub struct Interval {
    pub secs: u64,
    pub nanos: u32,
}

/// `value`, or the largest number of the machine where it is beyond that.
pub open spec fn capped(value: int) -> u64 {
    if value > u64::MAX {
        u64::MAX
    } else {
        value as u64
    }
}

impl Interval {
    /// The interval in milliseconds, rounded down.
    pub open spec fn millis_spec(self) -> u64 {
        capped(self.secs * 1000 + self.nanos / 1_000_000)
    }

    /// The interval in milliseconds, rounded down; the largest number of
    /// the machine where it is beyond that.
    pub fn millis(self) -> (r: u64)
        ensures
            r == self.millis_spec(),
    {
        let rest: u64 = (self.nanos / 1_000_000) as u64;
        match self.secs.checked_mul(1000) {
            Some(whole) => whole.saturating_add(rest),
            None => u64::MAX,
        }
    }

    /// The silence after which a worker is given up: three intervals.
    pub open spec fn eviction_threshold_spec(self) -> u64 {
        capped(3 * self.millis_spec())
    }

    /// The silence after which a worker is given up: three intervals, in
    /// milliseconds.
    pub fn eviction_threshold(self) -> (r: u64)
        ensures
            r == self.eviction_threshold_spec(),
    {
        match self.millis().checked_mul(3) {
            Some(threshold) => threshold,
            None => u64::MAX,
        }
    }
}

/// Whether the scheduler can listen on `port`.
pub open spec fn is_port(port: i32) -> bool {
    1 <= port <= 65535
}

/// The address on which the scheduler listens on `port`: every interface.
pub open spec fn listen_on(port: i32) -> Seq<char> {
    "0.0.0.0:"@ + decimal_digits(port as nat)
}

/// The text of the error for a port that cannot be listened on.
pub open spec fn address_refused() -> Seq<char> {
    "Scheduler errored: AddrParseError(Socket)"@
}

/// The address on which the scheduler listens on `port`, or the error that
/// says that there is no such port.
pub fn listen_address(port: i32) -> (r: Result<String, SchedulerError>)
    ensures
        is_port(port) ==> (r matches Ok(address) && address@ == listen_on(port)),
        !is_port(port) ==> (r matches Err(e) && e is SchedulerServiceError && e.message()
            == address_refused()),
{
    if port < 1 || port > 65535 {
        return Err(
            SchedulerError::SchedulerServiceError(
                String::from_str("Scheduler errored: AddrParseError(Socket)"),
            ),
        );
    }
    Ok(String::from_str("0.0.0.0:").concat(decimal(port as u64).as_str()))
}

/// What the controller does about an interrupt.
#[derive(Clone, Copy, Debug, PartialEq, Eq, Structural)]
pub enum ShutdownStep {
    /// Shut down in order: start a timer of this many seconds that ends
    /// the process with code 1 when it fires, wait for the pool to come to
    /// rest, then close the endpoint.
    Drain(u64),
    /// End the process at once with this code.
    Exit(i32),
}

/// The code with which the process ends after a shutdown in order: 0 where
/// the pool came to rest in time, 1 where the timer fired first.
pub fn exit_code(timed_out: bool) -> (r: i32)
    ensures
        r == (if timed_out {
            1int
        } else {
            0int
        }),
{
    if timed_out {
        1
    } else {
        0
    }
}

/// A scheduler that runs its tasks in process, ready to serve.
pub struct SingleProcessServer {
    /// The address to listen on.
    pub address: String,
    /// The seconds that a shutdown in order may take.
    pub graceful_timeout: u64,
    /// Whether an interrupt was received.
    pub interrupt_received: bool,
    /// The service for clients.
    pub service: SchedulerSingleProcessAdminService,
}

/// Makes a scheduler that runs its tasks in `pool` ready to serve on
/// `port`.
pub fn start_single_process_grpc_server(port: i32, pool: WorkerPool, graceful_timeout: u64) -> (r:
    Result<SingleProcessServer, SchedulerError>)
    ensures
        is_port(port) ==> (r matches Ok(server) && server.address@ == listen_on(port)
            && server.graceful_timeout == graceful_timeout && !server.interrupt_received
            && server.service.shared_data.worker_pool == pool),
        !is_port(port) ==> (r matches Err(e) && e is SchedulerServiceError && e.message()
            == address_refused()),
{
    let address = match listen_address(port) {
        Ok(address) => address,
        Err(error) => {
            return Err(error);
        },
    };
    Ok(
        SingleProcessServer {
            address,
            graceful_timeout,
            interrupt_received: false,
            service: SchedulerSingleProcessAdminService::new(SharedData { worker_pool: pool }),
        },
    )
}

impl SingleProcessServer {
    /// The invariant of the server: that of its service.
    pub open spec fn wf(&self) -> bool {
        self.service.wf()
    }

    /// Handles an interrupt. The first one begins the shutdown in order:
    /// the pool takes no more jobs, and the controller is to drain it
    /// within the graceful timeout. Any later one ends the process at once
    /// with code 1.
    pub fn interrupt(&mut self) -> (r: ShutdownStep)
        requires
            old(self).wf(),
        ensures
            final(self).wf(),
            final(self).interrupt_received,
            final(self).address == old(self).address,
            final(self).graceful_timeout == old(self).graceful_timeout,
            final(self).service.shared_data.worker_pool.keeps(
                &old(self).service.shared_data.worker_pool,
            ),
            old(self).interrupt_received ==> r == ShutdownStep::Exit(1)
                && final(self).service.shared_data.worker_pool@ == old(
                self,
            ).service.shared_data.worker_pool@,
            !old(self).interrupt_received ==> r == ShutdownStep::Drain(old(self).graceful_timeout)
                && final(self).service.shared_data.worker_pool@ == old(
                self,
            ).service.shared_data.worker_pool@.close(),
    {
        if self.interrupt_received {
            return ShutdownStep::Exit(1);
        }
        self.interrupt_received = true;
        self.service.shared_data.worker_pool.shutdown();
        ShutdownStep::Drain(self.graceful_timeout)
    }
}

/// A scheduler that hands its tasks to remote workers, ready to serve.
pub struct DistributedServer {
    /// The address to listen on.
    pub address: String,
    /// The seconds that a shutdown in order may take.
    pub graceful_timeout: u64,
    /// The time between two heartbeats to the workers.
    pub heartbeat_interval: Interval,
    /// Whether an interrupt was received.
    pub interrupt_received: bool,
    /// The service for clients.
    pub service: SchedulerAdminService,
    /// The side that the workers talk to.
    pub workers: SchedulerServer<RoundRobinBalancer>,
}

/// Makes a scheduler that hands its tasks to remote workers ready to serve
/// on `port`, with no worker connected yet.
pub fn start_scheduler_grpc_server(
    port: i32,
    pool: WorkerPool,
    graceful_timeout: u64,
    heartbeat_interval: Interval,
) -> (r: Result<DistributedServer, SchedulerError>)
    ensures
        is_port(port) ==> (r matches Ok(server) && server.wf() && server.address@ == listen_on(port)
            && server.graceful_timeout == graceful_timeout && server.heartbeat_interval
            == heartbeat_interval && !server.interrupt_received
            && server.service.shared_data.worker_pool == pool && server.service.executions == 0
            && server.workers.records().len() == 0 && server.workers.shared_state.max_task_queue
            == 100 && server.workers.shared_state.balancer.cursor() == 0),
        !is_port(port) ==> (r matches Err(e) && e is SchedulerServiceError && e.message()
            == address_refused()),
{
    let address = match listen_address(port) {
        Ok(address) => address,
        Err(error) => {
            return Err(error);
        },
    };
    let grpc_state = GrpcSharedState::new(RoundRobinBalancer::new(), None);
    Ok(
        DistributedServer {
            address,
            graceful_timeout,
            heartbeat_interval,
            interrupt_received: false,
            service: SchedulerAdminService::new(SharedData { worker_pool: pool }),
            workers: SchedulerServer::new(grpc_state),
        },
    )
}

impl DistributedServer {
    /// The invariant of the server: that of the fabric.
    pub open spec fn wf(&self) -> bool {
        self.workers.wf()
    }

    /// Whether the server has the settings of `before`.
    pub open spec fn keeps(&self, before: &Self) -> bool {
        &&& self.address == before.address
        &&& self.graceful_timeout == before.graceful_timeout
        &&& self.heartbeat_interval == before.heartbeat_interval
        &&& self.service.executions == before.service.executions
        &&& self.workers.keeps(&before.workers)
    }

    /// Handles an interrupt. The first one begins the shutdown in order:
    /// every session is told to stop, the pool takes no more jobs where it
    /// is well formed, and the controller is to drain it within the
    /// graceful timeout. Any later one ends the process at once with code
    /// 1.
    pub fn interrupt(&mut self) -> (r: ShutdownStep)
        requires
            old(self).wf(),
            old(self).service.shared_data.worker_pool.wf(),
        ensures
            final(self).wf(),
            final(self).keeps(old(self)),
            final(self).interrupt_received,
            final(self).service.shared_data.worker_pool.wf(),
            final(self).service.shared_data.worker_pool.keeps(
                &old(self).service.shared_data.worker_pool,
            ),
            old(self).interrupt_received ==> {
                &&& r == ShutdownStep::Exit(1)
                &&& final(self).workers.records() == old(self).workers.records()
                &&& final(self).service.shared_data.worker_pool@ == old(
                    self,
                ).service.shared_data.worker_pool@
            },
            !old(self).interrupt_received ==> {
                &&& r == ShutdownStep::Drain(old(self).graceful_timeout)
                &&& final(self).workers.records() == all_cancelled(old(self).workers.records())
                &&& final(self).service.shared_data.worker_pool@ == old(
                    self,
                ).service.shared_data.worker_pool@.close()
            },
    {
        if self.interrupt_received {
            return ShutdownStep::Exit(1);
        }
        self.interrupt_received = true;
        self.workers.shared_state.drop_workers();
        self.service.shared_data.worker_pool.shutdown();
        ShutdownStep::Drain(self.graceful_timeout)
    }

    /// The turn of the heartbeat timer: queues a heartbeat for every
    /// connected worker whose queue is not full, and says for how many.
    pub fn tick(&mut self) -> (r: usize)
        requires
            old(self).wf(),
        ensures
            final(self).wf(),
            final(self).keeps(old(self)),
            final(self).interrupt_received == old(self).interrupt_received,
            final(self).service == old(self).service,
            final(self).workers.records() == all_pinged(
                old(self).workers.records(),
                old(self).workers.shared_state.max_task_queue,
            ),
            r == with_room(
                old(self).workers.records(),
                old(self).workers.shared_state.max_task_queue,
            ),
    {
        self.workers.shared_state.heartbeat_all()
    }

    /// The turn of the liveness monitor at `now`, in milliseconds: tells
    /// the session of every worker that has been silent for more than
    /// three heartbeat intervals to stop, and returns their names.
    pub fn monitor(&mut self, now: u64) -> (r: Vec<String>)
        requires
            old(self).wf(),
        ensures
            final(self).wf(),
            final(self).keeps(old(self)),
            final(self).interrupt_received == old(self).interrupt_received,
            final(self).service == old(self).service,
            final(self).workers.records() == stale_evicted(
                old(self).workers.records(),
                now,
                old(self).heartbeat_interval.eviction_threshold_spec(),
            ),
            strings_view(r@) == stale_ids(
                old(self).workers.records(),
                now,
                old(self).heartbeat_interval.eviction_threshold_spec(),
            ),
    {
        let threshold = self.heartbeat_interval.eviction_threshold();
        self.workers.shared_state.evict_stale(now, threshold)
    }
}

} // verus!
