//! The messages between clients, the scheduler and its workers.

use crate::internal::task::clone_task_option;
use crate::internal::task::task_option_view;
use crate::internal::task::Task;
use crate::internal::task::TaskState;
use crate::internal::task::TaskView;
use crate::utils::text::strings_view;
use vstd::prelude::*;

verus! {

/// A task to run, with the identifier of this attempt to run it.
#[derive(Debug, PartialEq, Eq)]
pub struct ExecuteRequest {
    pub task: Option<Task>,
    pub execution_id: String,
}

/// What an `ExecuteRequest` holds.
pub struct ExecuteRequestView {
    pub task: Option<TaskView>,
    pub execution_id: Seq<char>,
}

impl View for ExecuteRequest {
    type V = ExecuteRequestView;

    open spec fn view(&self) -> ExecuteRequestView {
        ExecuteRequestView { task: task_option_view(self.task), execution_id: self.execution_id@ }
    }
}

impl Clone for ExecuteRequest {
    fn clone(&self) -> (r: Self)
        ensures
            r@ == self@,
    {
        ExecuteRequest {
            task: clone_task_option(&self.task),
            execution_id: self.execution_id.clone(),
        }
    }
}

/// The scheduler's answer to an `ExecuteRequest` that it has dispatched.
#[derive(Debug, PartialEq, Eq)]
pub struct ExecuteResponse {
    pub task_id: String,
    pub execution_id: String,
    pub state: TaskState,
}

/// What an `ExecuteResponse` holds.
pub struct ExecuteResponseView {
    pub task_id: Seq<char>,
    pub execution_id: Seq<char>,
    pub state: TaskState,
}

impl View for ExecuteResponse {
    type V = ExecuteResponseView;

    open spec fn view(&self) -> ExecuteResponseView {
        ExecuteResponseView {
            task_id: self.task_id@,
            execution_id: self.execution_id@,
            state: self.state,
        }
    }
}

/// A worker's report that an execution has ended.
#[derive(Debug, PartialEq, Eq)]
pub struct TaskCompletion {
    pub task_id: String,
    pub execution_id: String,
    pub state: TaskState,
}

/// What a `TaskCompletion` holds.
pub struct TaskCompletionView {
    pub task_id: Seq<char>,
    pub execution_id: Seq<char>,
    pub state: TaskState,
}

impl View for TaskCompletion {
    type V = TaskCompletionView;

    open spec fn view(&self) -> TaskCompletionView {
        TaskCompletionView {
            task_id: self.task_id@,
            execution_id: self.execution_id@,
            state: self.state,
        }
    }
}

impl Clone for TaskCompletion {
    fn clone(&self) -> (r: Self)
        ensures
            r@ == self@,
    {
        TaskCompletion {
            task_id: self.task_id.clone(),
            execution_id: self.execution_id.clone(),
            state: self.state,
        }
    }
}

/// The scheduler's order to a worker to run a task.
#[derive(Debug, PartialEq, Eq)]
pub struct AssignTaskRequest {
    pub task: Option<Task>,
    pub execution_id: String,
}

/// What an `AssignTaskRequest` holds.
pub struct AssignTaskRequestView {
    pub task: Option<TaskView>,
    pub execution_id: Seq<char>,
}

impl View for AssignTaskRequest {
    type V = AssignTaskRequestView;

    open spec fn view(&self) -> AssignTaskRequestView {
        AssignTaskRequestView {
            task: task_option_view(self.task),
            execution_id: self.execution_id@,
        }
    }
}

impl Clone for AssignTaskRequest {
    fn clone(&self) -> (r: Self)
        ensures
            r@ == self@,
    {
        AssignTaskRequest {
            task: clone_task_option(&self.task),
            execution_id: self.execution_id.clone(),
        }
    }
}

/// A worker's first message on its stream: who it is, what it can run, and
/// the shared secret that admits it.
#[derive(Debug, PartialEq, Eq)]
pub struct RegistrationRequest {
    pub worker_id: String,
    pub supported_tasks: Vec<String>,
    pub magic_cookie: String,
}

/// What a `RegistrationRequest` holds.
pub struct RegistrationRequestView {
    pub worker_id: Seq<char>,
    pub supported_tasks: Seq<Seq<char>>,
    pub magic_cookie: Seq<char>,
}

impl View for RegistrationRequest {
    type V = RegistrationRequestView;

    open spec fn view(&self) -> RegistrationRequestView {
        RegistrationRequestView {
            worker_id: self.worker_id@,
            supported_tasks: strings_view(self.supported_tasks@),
            magic_cookie: self.magic_cookie@,
        }
    }
}

impl Clone for RegistrationRequest {
    fn clone(&self) -> (r: Self)
        ensures
            r@ == self@,
    {
        let r = RegistrationRequest {
            worker_id: self.worker_id.clone(),
            supported_tasks: self.supported_tasks.clone(),
            magic_cookie: self.magic_cookie.clone(),
        };
        assert(strings_view(r.supported_tasks@) =~= strings_view(self.supported_tasks@));
        r
    }
}

/// What a worker tells of its own load with a heartbeat.
#[derive(Clone, Copy, Debug, PartialEq, Eq, Structural)]
pub struct WorkerMetrics {
}

/// A worker's sign of life, with its metrics where it sends them.
#[derive(Clone, Copy, Debug, PartialEq, Eq, Structural)]
pub struct Pong {
    pub metrics: Option<WorkerMetrics>,
}

/// The three things a worker can say.
#[derive(Debug, PartialEq, Eq)]
pub enum WorkerMessageType {
    Registration(RegistrationRequest),
    Completion(TaskCompletion),
    Heartbeat(Pong),
}

/// What a `WorkerMessageType` holds.
pub enum WorkerMessageTypeView {
    Registration(RegistrationRequestView),
    Completion(TaskCompletionView),
    Heartbeat(Pong),
}

impl View for WorkerMessageType {
    type V = WorkerMessageTypeView;

    open spec fn view(&self) -> WorkerMessageTypeView {
        match self {
            WorkerMessageType::Registration(r) => WorkerMessageTypeView::Registration(r@),
            WorkerMessageType::Completion(c) => WorkerMessageTypeView::Completion(c@),
            WorkerMessageType::Heartbeat(p) => WorkerMessageTypeView::Heartbeat(*p),
        }
    }
}

/// One message from a worker; without a content where the sender left it
/// out or the receiver did not know the kind.
#[derive(Debug, PartialEq, Eq)]
pub struct WorkerMessage {
    pub worker_message_type: Option<WorkerMessageType>,
}

/// What a `WorkerMessage` holds.
pub struct WorkerMessageView {
    pub worker_message_type: Option<WorkerMessageTypeView>,
}

impl View for WorkerMessage {
    type V = WorkerMessageView;

    open spec fn view(&self) -> WorkerMessageView {
        WorkerMessageView {
            worker_message_type: match self.worker_message_type {
                Some(m) => Some(m@),
                None => None,
            },
        }
    }
}

/// Whether a worker's channel is open for assignments.
#[derive(Clone, Copy, Debug, PartialEq, Eq, Structural)]
pub enum WorkerChannelStatus {
    Unspecified,
    Ready,
}

/// The scheduler's answer to a registration.
#[derive(Debug, PartialEq, Eq)]
pub struct Ack {
    pub message: String,
    pub status: WorkerChannelStatus,
}

/// What an `Ack` holds.
pub struct AckView {
    pub message: Seq<char>,
    pub status: WorkerChannelStatus,
}

impl View for Ack {
    type V = AckView;

    open spec fn view(&self) -> AckView {
        AckView { message: self.message@, status: self.status }
    }
}

/// The scheduler's notice that it lets a worker go.
#[derive(Debug, PartialEq, Eq)]
pub struct Disconnect {
    pub message: String,
}

/// The four things the scheduler can say to a worker.
#[derive(Debug, PartialEq, Eq)]
pub enum SchedulerMessageType {
    AssignTask(AssignTaskRequest),
    Disconnect(Disconnect),
    Ack(Ack),
    Heartbeat,
}

/// What a `SchedulerMessageType` holds.
pub enum SchedulerMessageTypeView {
    AssignTask(AssignTaskRequestView),
    Disconnect(Seq<char>),
    Ack(AckView),
    Heartbeat,
}

impl View for SchedulerMessageType {
    type V = SchedulerMessageTypeView;

    open spec fn view(&self) -> SchedulerMessageTypeView {
        match self {
            SchedulerMessageType::AssignTask(a) => SchedulerMessageTypeView::AssignTask(a@),
            SchedulerMessageType::Disconnect(d) => SchedulerMessageTypeView::Disconnect(
                d.message@,
            ),
            SchedulerMessageType::Ack(a) => SchedulerMessageTypeView::Ack(a@),
            SchedulerMessageType::Heartbeat => SchedulerMessageTypeView::Heartbeat,
        }
    }
}

/// One message from the scheduler to a worker.
#[derive(Debug, PartialEq, Eq)]
pub struct SchedulerMessage {
    pub scheduler_message_type: Option<SchedulerMessageType>,
}

/// What a `SchedulerMessage` holds.
pub struct SchedulerMessageView {
    pub scheduler_message_type: Option<SchedulerMessageTypeView>,
}

impl View for SchedulerMessage {
    type V = SchedulerMessageView;

    open spec fn view(&self) -> SchedulerMessageView {
        SchedulerMessageView {
            scheduler_message_type: match self.scheduler_message_type {
                Some(m) => Some(m@),
                None => None,
            },
        }
    }
}

impl SchedulerMessage {
    /// The message that assigns `request`.
    pub open spec fn assignment(request: AssignTaskRequestView) -> SchedulerMessageView {
        SchedulerMessageView {
            scheduler_message_type: Some(SchedulerMessageTypeView::AssignTask(request)),
        }
    }

    /// The scheduler's heartbeat.
    pub open spec fn heartbeat() -> SchedulerMessageView {
        SchedulerMessageView { scheduler_message_type: Some(SchedulerMessageTypeView::Heartbeat) }
    }
}

/// A request to run a task at a later time.
#[derive(Debug, PartialEq, Eq)]
pub struct ScheduleRequest {
    pub task: Option<Task>,
}

/// The answer to a `ScheduleRequest`.
#[derive(Debug, PartialEq, Eq)]
pub struct ScheduleResponse {
    pub task_id: String,
}

} // verus!
