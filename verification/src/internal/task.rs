//! A unit of work and the states it passes through.

use vstd::prelude::*;

verus! {

/// A type-tagged blob that the scheduler passes through to the executor
/// without looking inside.
#[derive(Debug, PartialEq, Eq)]
pub struct Any {
    pub type_url: String,
    pub value: Vec<u8>,
}

/// What an `Any` holds.
pub struct AnyView {
    pub type_url: Seq<char>,
    pub value: Seq<u8>,
}

impl View for Any {
    type V = AnyView;

    open spec fn view(&self) -> AnyView {
        AnyView { type_url: self.type_url@, value: self.value@ }
    }
}

impl Clone for Any {
    fn clone(&self) -> (r: Self)
        ensures
            r@ == self@,
    {
        let r = Any { type_url: self.type_url.clone(), value: self.value.clone() };
        assert(r.value@ =~= self.value@);
        r
    }
}

/// A unit of work: the name under which its executor is registered, and the
/// payload for it.
#[derive(Debug, PartialEq, Eq)]
pub struct Task {
    pub id: String,
    pub payload: Option<Any>,
}

/// What a `Task` holds.
pub struct TaskView {
    pub id: Seq<char>,
    pub payload: Option<AnyView>,
}

impl View for Task {
    type V = TaskView;

    open spec fn view(&self) -> TaskView {
        TaskView {
            id: self.id@,
            payload: match self.payload {
                Some(p) => Some(p@),
                None => None,
            },
        }
    }
}

impl Clone for Task {
    fn clone(&self) -> (r: Self)
        ensures
            r@ == self@,
    {
        let payload = match &self.payload {
            Some(p) => Some(p.clone()),
            None => None,
        };
        Task { id: self.id.clone(), payload }
    }
}

/// Where an execution stands. `Pending` says that it was dispatched and its
/// outcome is not known yet; the other two are what a worker reports.
#[derive(Clone, Copy, Debug, PartialEq, Eq, Structural)]
pub enum TaskState {
    Pending,
    Success,
    Fail,
}

impl TaskState {
    /// The number that stands for the state on the wire.
    pub open spec fn wire_value(self) -> int {
        match self {
            TaskState::Pending => 0,
            TaskState::Success => 1,
            TaskState::Fail => 2,
        }
    }

    /// The number that stands for the state on the wire.
    pub fn as_i32(self) -> (r: i32)
        ensures
            r == self.wire_value(),
    {
        match self {
            TaskState::Pending => 0,
            TaskState::Success => 1,
            TaskState::Fail => 2,
        }
    }

    /// The state that `value` stands for on the wire, if it is one.
    pub fn from_i32(value: i32) -> (r: Option<TaskState>)
        ensures
            match r {
                Some(s) => s.wire_value() == value,
                None => value < 0 || value > 2,
            },
    {
        if value == 0 {
            Some(TaskState::Pending)
        } else if value == 1 {
            Some(TaskState::Success)
        } else if value == 2 {
            Some(TaskState::Fail)
        } else {
            None
        }
    }
}

/// The view of an optional task.
pub open spec fn task_option_view(task: Option<Task>) -> Option<TaskView> {
    match task {
        Some(t) => Some(t@),
        None => None,
    }
}

/// A copy of an optional task.
pub fn clone_task_option(task: &Option<Task>) -> (r: Option<Task>)
    ensures
        task_option_view(r) == task_option_view(*task),
{
    match task {
        Some(t) => Some(t.clone()),
        None => None,
    }
}

} // verus!
