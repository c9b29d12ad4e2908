//! A queued piece of work: a callable packaged with the request it is to be
//! called on.

use crate::internal::scheduler::ExecuteRequest;
use crate::internal::scheduler::ExecuteRequestView;
use vstd::prelude::*;

verus! {

/// Something that can be called once, from inside a box.
pub trait FnBox<T>: Send {
    /// Whether the callable may be called on `args`.
    spec fn accepts(&self, args: T) -> bool;

    /// Whether the callable has done its work on `args`: what it promises
    /// of a call on `args` holds.
    spec fn fulfils(&self, args: T) -> bool;

    /// Calls the callable on `args` and uses it up.
    fn call_box(self: Box<Self>, args: T)
        requires
            self.accepts(args),
        ensures
            self.fulfils(args),
    ;
}

impl<F, A> FnBox<A> for F where F: FnOnce(A) + Send {
    open spec fn accepts(&self, args: A) -> bool {
        call_requires(*self, (args,))
    }

    open spec fn fulfils(&self, args: A) -> bool {
        call_ensures(*self, (args,), ())
    }

    fn call_box(self: Box<Self>, args: A) {
        (*self)(args)
    }
}

/// A boxed callable that takes an `A`.
pub type Thunk<A> = Box<dyn FnBox<A>>;

/// A job of the pool: a number, the callable and the request to call it on.
/// The queue owns a job until a worker takes it; from then on the worker
/// does, until the call has returned.
pub struct Job {
    pub id: usize,
    pub job: Thunk<ExecuteRequest>,
    pub data: ExecuteRequest,
}

impl Job {
    /// Whether the job's callable accepts the job's request.
    pub open spec fn runnable(&self) -> bool {
        self.job.accepts(self.data)
    }

    /// Whether the job was run: its callable has done its work on its
    /// request.
    pub open spec fn done(&self) -> bool {
        self.job.fulfils(self.data)
    }

    /// The request that the job carries.
    pub open spec fn request(&self) -> ExecuteRequestView {
        self.data@
    }

    /// Packages `job` with the request and the number of the job.
    pub fn new<F>(id: usize, job: F, data: ExecuteRequest) -> (r: Job) where
        F: FnOnce(ExecuteRequest) + Send + 'static,

        requires
            call_requires(job, (data,)),
        ensures
            r.id == id,
            r.data == data,
            r.runnable(),
            r.done() <==> call_ensures(job, (data,), ()),
    {
        Job { id, job: Box::new(job), data }
    }

    /// Runs the job: calls the callable on the request. The job is used up.
    pub fn execute_job(self)
        requires
            self.runnable(),
        ensures
            self.done(),
    {
        self.job.call_box(self.data)
    }

    /// The number of the job.
    pub fn get_id(&self) -> (r: usize)
        ensures
            r == self.id,
    {
        self.id
    }
}

} // verus!
