//! The remote worker: what it tells the scheduler about itself and what it
//! does about the scheduler's messages.

use crate::engine::worker_pool::GrpcWorkersRegistry;
use crate::internal::scheduler::AssignTaskRequest;
use crate::internal::scheduler::AssignTaskRequestView;
use crate::internal::scheduler::ExecuteRequest;
use crate::internal::scheduler::Pong;
use crate::internal::scheduler::RegistrationRequest;
use crate::internal::scheduler::RegistrationRequestView;
use crate::internal::scheduler::SchedulerMessage;
use crate::internal::scheduler::SchedulerMessageType;
use crate::internal::scheduler::SchedulerMessageTypeView;
use crate::internal::scheduler::SchedulerMessageView;
use crate::internal::scheduler::TaskCompletion;
use crate::internal::scheduler::TaskCompletionView;
use crate::internal::scheduler::WorkerMessage;
use crate::internal::scheduler::WorkerMessageType;
use crate::internal::scheduler::WorkerMessageTypeView;
use crate::internal::scheduler::WorkerMessageView;
use crate::internal::scheduler::WorkerMetrics;
use crate::internal::task::TaskState;
use crate::utils::error::SchedulerError;
use crate::utils::text::strings_view;
use vstd::prelude::*;
use vstd::string::StringExecFns;

verus! {

/// A remote worker.
pub struct GrpcWorker {
    pub registeration_details: RegistrationRequest,
    pub registry: GrpcWorkersRegistry,
}

/// The settings of a remote worker that is yet to be built.
pub struct GrpcWorkerBuilder {
    pub worker_id: Option<String>,
    pub tasks: Vec<String>,
    pub cookie: Option<String>,
    pub registry: Option<GrpcWorkersRegistry>,
}

/// The name of a worker that was given none.
pub open spec fn default_worker_id() -> Seq<char> {
    "SomeWorkerId"@
}

/// The secret of a worker that was given none.
pub open spec fn default_cookie() -> Seq<char> {
    "SomeSecert"@
}

impl GrpcWorkerBuilder {
    /// Settings for a worker with the default name, no tasks, no secret
    /// and no executors.
    pub fn new() -> (r: Self)
        ensures
            r.worker_id matches Some(id) && id@ == default_worker_id(),
            r.tasks@.len() == 0,
            r.cookie is None,
            r.registry is None,
    {
        GrpcWorkerBuilder {
            worker_id: Some(String::from_str("SomeWorkerId")),
            tasks: Vec::new(),
            cookie: None,
            registry: None,
        }
    }

    /// Names the worker.
    pub fn with_id(self, id: String) -> (r: Self)
        ensures
            r == (GrpcWorkerBuilder { worker_id: Some(id), ..self }),
    {
        let mut r = self;
        r.worker_id = Some(id);
        r
    }

    /// Gives the worker its executors.
    pub fn with_registry(self, registry: GrpcWorkersRegistry) -> (r: Self)
        ensures
            r == (GrpcWorkerBuilder { registry: Some(registry), ..self }),
    {
        let mut r = self;
        r.registry = Some(registry);
        r
    }

    /// Whether the settings can be built: a registry that they hold is
    /// well formed.
    pub open spec fn wf(self) -> bool {
        self.registry matches Some(registry) ==> registry.wf()
    }

    /// Builds the worker. It registers under its name, or the default name
    /// where it has none, with its tasks, and with its secret, or the
    /// default secret where it has none.
    pub fn build(self) -> (r: GrpcWorker)
        requires
            self.wf(),
        ensures
            r.wf(),
            r.registeration_details@ == (RegistrationRequestView {
                worker_id: match self.worker_id {
                    Some(id) => id@,
                    None => default_worker_id(),
                },
                supported_tasks: strings_view(self.tasks@),
                magic_cookie: match self.cookie {
                    Some(cookie) => cookie@,
                    None => default_cookie(),
                },
            }),
            match self.registry {
                Some(registry) => r.registry == registry,
                None => r.registry@ == Seq::<Seq<char>>::empty(),
            },
    {
        let worker_id = match self.worker_id {
            Some(id) => id,
            None => String::from_str("SomeWorkerId"),
        };
        let magic_cookie = match self.cookie {
            Some(cookie) => cookie,
            None => String::from_str("SomeSecert"),
        };
        let registry = match self.registry {
            Some(registry) => registry,
            None => GrpcWorkersRegistry::new(),
        };
        GrpcWorker {
            registeration_details: RegistrationRequest {
                worker_id,
                supported_tasks: self.tasks,
                magic_cookie,
            },
            registry,
        }
    }
}

/// What a worker does about a message from the scheduler.
#[derive(Debug, PartialEq, Eq)]
pub enum WorkerAction {
    /// Run this assignment and send what `run` makes of it.
    Execute(AssignTaskRequest),
    /// Send this message to the scheduler.
    Send(WorkerMessage),
    /// Nothing.
    Ignore,
}

/// What a `WorkerAction` holds.
pub enum WorkerActionView {
    Execute(AssignTaskRequestView),
    Send(WorkerMessageView),
    Ignore,
}

impl View for WorkerAction {
    type V = WorkerActionView;

    open spec fn view(&self) -> WorkerActionView {
        match self {
            WorkerAction::Execute(a) => WorkerActionView::Execute(a@),
            WorkerAction::Send(m) => WorkerActionView::Send(m@),
            WorkerAction::Ignore => WorkerActionView::Ignore,
        }
    }
}

/// The worker's answer to a heartbeat of the scheduler.
pub open spec fn pong() -> WorkerMessageView {
    WorkerMessageView {
        worker_message_type: Some(
            WorkerMessageTypeView::Heartbeat(Pong { metrics: Some(WorkerMetrics {  }) }),
        ),
    }
}

/// The message that reports `completion`.
pub open spec fn completion_message(completion: TaskCompletionView) -> WorkerMessageView {
    WorkerMessageView { worker_message_type: Some(WorkerMessageTypeView::Completion(completion)) }
}

/// What a worker does about `message`: it runs an assignment that names a
/// task, answers a heartbeat, and ignores everything else.
pub open spec fn action_for(message: SchedulerMessageView) -> WorkerActionView {
    match message.scheduler_message_type {
        Some(SchedulerMessageTypeView::AssignTask(request)) => if request.task is Some {
            WorkerActionView::Execute(request)
        } else {
            WorkerActionView::Ignore
        },
        Some(SchedulerMessageTypeView::Heartbeat) => WorkerActionView::Send(pong()),
        _ => WorkerActionView::Ignore,
    }
}

/// What a worker sends after its executor has ended with `outcome`: the
/// completion that the executor reports, and nothing where it failed.
pub open spec fn report_of(outcome: Result<TaskCompletion, SchedulerError>) -> Option<
    WorkerMessageView,
> {
    match outcome {
        Ok(completion) => Some(completion_message(completion@)),
        Err(_) => None,
    }
}

/// The view of an optional message.
pub open spec fn message_option_view(message: Option<WorkerMessage>) -> Option<
    WorkerMessageView,
> {
    match message {
        Some(m) => Some(m@),
        None => None,
    }
}

/// What a worker sends after its executor has ended with `outcome`: the
/// completion that the executor reports, and nothing where it failed.
pub fn report(outcome: Result<TaskCompletion, SchedulerError>) -> (r: Option<WorkerMessage>)
    ensures
        message_option_view(r) == report_of(outcome),
{
    match outcome {
        Ok(completion) => Some(
            WorkerMessage { worker_message_type: Some(WorkerMessageType::Completion(completion)) },
        ),
        Err(_) => None,
    }
}

impl GrpcWorker {
    /// The invariant of the worker: that of its registry.
    pub open spec fn wf(&self) -> bool {
        self.registry.wf()
    }

    /// The first message of the worker on its stream: its registration.
    pub fn registration(&self) -> (r: WorkerMessage)
        ensures
            r@ == (WorkerMessageView {
                worker_message_type: Some(
                    WorkerMessageTypeView::Registration(self.registeration_details@),
                ),
            }),
    {
        WorkerMessage {
            worker_message_type: Some(
                WorkerMessageType::Registration(self.registeration_details.clone()),
            ),
        }
    }

    /// Says what the worker does about `message` from the scheduler.
    pub fn communicate(&self, message: SchedulerMessage) -> (r: WorkerAction)
        ensures
            r@ == action_for(message@),
    {
        match message.scheduler_message_type {
            Some(SchedulerMessageType::AssignTask(request)) => {
                if request.task.is_some() {
                    WorkerAction::Execute(request)
                } else {
                    WorkerAction::Ignore
                }
            },
            Some(SchedulerMessageType::Heartbeat) => WorkerAction::Send(
                WorkerMessage {
                    worker_message_type: Some(
                        WorkerMessageType::Heartbeat(Pong { metrics: Some(WorkerMetrics {  }) }),
                    ),
                },
            ),
            _ => WorkerAction::Ignore,
        }
    }

    /// Runs the assignment `task` and says what to send to the scheduler.
    /// Where no executor is registered under the name of the task, the
    /// worker reports that the execution has failed. Else it calls that
    /// executor on the task and the execution of the assignment, and sends
    /// what `report` makes of the outcome.
    pub fn run(&self, task: AssignTaskRequest) -> (r: Option<WorkerMessage>)
        requires
            self.wf(),
            task@.task is Some,
        ensures
            !self.registry@.contains(task@.task->0.id) ==> message_option_view(r) == Some(
                completion_message(
                    TaskCompletionView {
                        task_id: task@.task->0.id,
                        execution_id: task@.execution_id,
                        state: TaskState::Fail,
                    },
                ),
            ),
            self.registry@.contains(task@.task->0.id) ==> exists|
                outcome: Result<TaskCompletion, SchedulerError>,
            |
                #![trigger report_of(outcome)]
                {
                    &&& self.registry.executor_of(task@.task->0.id).reported(
                        ExecuteRequest { task: task.task, execution_id: task.execution_id },
                        outcome,
                    )
                    &&& message_option_view(r) == report_of(outcome)
                },
    {
        let task_id = match &task.task {
            Some(t) => t.id.clone(),
            None => String::from_str(""),
        };
        match self.registry.get_executor(task_id.as_str()) {
            Ok(operation) => {
                let execute_req = ExecuteRequest {
                    task: task.task,
                    execution_id: task.execution_id,
                };
                let outcome = operation.execute(execute_req);
                let ghost seen = outcome;
                let r = report(outcome);
                assert(message_option_view(r) == report_of(seen));
                r
            },
            Err(_) => Some(
                WorkerMessage {
                    worker_message_type: Some(
                        WorkerMessageType::Completion(
                            TaskCompletion {
                                task_id,
                                state: TaskState::Fail,
                                execution_id: task.execution_id,
                            },
                        ),
                    ),
                },
            ),
        }
    }
}

impl Default for GrpcWorker {
    /// The worker that the default settings build.
    fn default() -> (r: Self)
        ensures
            r.wf(),
            r.registeration_details@ == (RegistrationRequestView {
                worker_id: default_worker_id(),
                supported_tasks: Seq::empty(),
                magic_cookie: default_cookie(),
            }),
            r.registry@ == Seq::<Seq<char>>::empty(),
    {
        let r = GrpcWorkerBuilder::new().build();
        assert(r.registeration_details@.supported_tasks =~= Seq::<Seq<char>>::empty());
        r
    }
}

} // verus!
