//! The in-process worker pool: the registries of executors, the state that
//! the workers share, the pool itself and the builder that makes it.

use crate::engine::job::Job;
use crate::engine::pool_state::lemma_step_keeps_wf;
use crate::engine::pool_state::PoolEvent;
use crate::engine::pool_state::PoolState;
use crate::engine::worker::finish_job;
use crate::engine::worker::is_thread_of;
use crate::engine::worker::LocalWorker;
use crate::engine::worker::take_job;
use crate::engine::worker::Worker;
use crate::engine::worker::WorkerStep;
use crate::engine::worker::WorkerThread;
use crate::engine::worker::WorkerType;
use crate::internal::scheduler::ExecuteRequest;
use crate::internal::scheduler::ExecuteRequestView;
use crate::internal::scheduler::TaskCompletion;
use crate::utils::error::SchedulerError;
use crate::utils::text::decimal_digits;
use crate::utils::text::decimal;
use crate::utils::text::strings_view;
use std::sync::Arc;
use vstd::prelude::*;
use vstd::string::StringExecFns;

verus! {

/// `num_cpus::get`, the number of processors that this process may run on.
/// It depends on the machine and on the limits set for the process, so the
/// contract says only what the crate promises of every answer: that it is
/// at least one.
pub assume_specification[ num_cpus::get ]() -> (n: usize)
    ensures
        n >= 1,
;

/// What runs a task in this process.
pub trait TaskExecutor: Send + Sync + 'static {
    /// Whether the executor has run the task of `args`. An executor that
    /// does not say what running a task means to it promises nothing.
    open spec fn executed(&self, args: ExecuteRequest) -> bool {
        true
    }

    /// Runs the task of `args`.
    fn execute(&self, args: ExecuteRequest)
        ensures
            self.executed(args),
    ;
}

/// What runs a task in a remote worker and reports how it ended.
pub trait AsyncTaskExecutor: Send + Sync + 'static {
    /// Whether `outcome` is what the executor reports of a run of the task
    /// of `args`. An executor that does not say what running a task means
    /// to it promises nothing.
    open spec fn reported(
        &self,
        args: ExecuteRequest,
        outcome: Result<TaskCompletion, SchedulerError>,
    ) -> bool {
        true
    }

    /// Runs the task of `args`.
    fn execute(&self, args: ExecuteRequest) -> (r: Result<TaskCompletion, SchedulerError>)
        ensures
            self.reported(args, r),
    ;
}

/// Whether no text occurs twice in `names`.
pub open spec fn distinct_names(names: Seq<Seq<char>>) -> bool {
    forall|i: int, j: int| 0 <= i < j < names.len() ==> names[i] != names[j]
}

/// The names in `names` after `name` was registered: as before where it was
/// there already, else with `name` at the end.
pub open spec fn registered(names: Seq<Seq<char>>, name: Seq<char>) -> Seq<Seq<char>> {
    if names.contains(name) {
        names
    } else {
        names.push(name)
    }
}

/// The place of `name` in `names`.
pub open spec fn slot_of(names: Seq<Seq<char>>, name: Seq<char>) -> int {
    choose|i: int| 0 <= i < names.len() && names[i] == name
}

/// Among distinct names, a name stands at one place only.
proof fn lemma_slot_of(names: Seq<Seq<char>>, name: Seq<char>, i: int)
    requires
        distinct_names(names),
        0 <= i < names.len(),
        names[i] == name,
    ensures
        names.contains(name),
        slot_of(names, name) == i,
{
}

/// The text of the error for a task without an executor.
pub open spec fn executor_not_found(name: Seq<char>) -> Seq<char> {
    "Executor not found for task: "@ + name
}

/// Where `name` stands in `names`.
fn find_name(names: &Vec<String>, name: &str) -> (r: Option<usize>)
    ensures
        match r {
            Some(i) => i < names@.len() && names@[i as int]@ == name@,
            None => !strings_view(names@).contains(name@),
        },
{
    let wanted = name.to_owned();
    let mut i: usize = 0;
    while i < names.len()
        invariant
            0 <= i <= names@.len(),
            wanted@ == name@,
            forall|k: int| 0 <= k < i ==> (#[trigger] names@[k])@ != name@,
        decreases names@.len() - i,
    {
        if names[i] == wanted {
            return Some(i);
        }
        i = i + 1;
    }
    assert forall|k: int| 0 <= k < strings_view(names@).len() implies strings_view(names@)[k]
        != name@ by {
        assert(names@[k]@ != name@);
    }
    None
}

/// Registering a name that is not there keeps the names distinct.
proof fn lemma_push_distinct(names: Seq<Seq<char>>, name: Seq<char>)
    requires
        distinct_names(names),
        !names.contains(name),
    ensures
        distinct_names(names.push(name)),
{
    let after = names.push(name);
    assert forall|i: int, j: int| 0 <= i < j < after.len() implies after[i] != after[j] by {
        if j == names.len() {
            assert(names.contains(names[i]));
        }
    }
}

/// The failure to find an executor for `name`.
fn not_found(name: &str) -> (e: SchedulerError)
    ensures
        e is TaskExecutionError,
        e.message() == executor_not_found(name@),
{
    SchedulerError::TaskExecutionError(
        String::from_str("Executor not found for task: ").concat(name),
    )
}

/// The executors of this process by the names of their tasks. Its view is
/// the names, in the order in which they were first registered.
pub struct TaskRegistry {
    names: Vec<String>,
    executors: Vec<Arc<Box<dyn TaskExecutor>>>,
}

impl View for TaskRegistry {
    type V = Seq<Seq<char>>;

    closed spec fn view(&self) -> Seq<Seq<char>> {
        strings_view(self.names@)
    }
}

impl Default for TaskRegistry {
    /// A registry without executors.
    fn default() -> (r: Self)
        ensures
            r.wf(),
            r@ == Seq::<Seq<char>>::empty(),
    {
        TaskRegistry::new()
    }
}

impl TaskRegistry {
    /// The invariant of the registry: one executor for each name, and no
    /// name twice.
    pub closed spec fn wf(&self) -> bool {
        &&& self.names@.len() == self.executors@.len()
        &&& distinct_names(self@)
    }

    /// The executor registered under `name`.
    pub closed spec fn executor_of(&self, name: Seq<char>) -> Arc<Box<dyn TaskExecutor>> {
        self.executors@[slot_of(self@, name)]
    }

    /// A registry without executors.
    pub fn new() -> (r: Self)
        ensures
            r.wf(),
            r@ == Seq::<Seq<char>>::empty(),
    {
        let r = TaskRegistry { names: Vec::new(), executors: Vec::new() };
        assert(r@ =~= Seq::<Seq<char>>::empty());
        r
    }

    /// Registers `executor` under `task_name`. Where the name was taken,
    /// the new executor stands in for the old one. The executors under
    /// other names stay.
    pub fn register_task<E>(&mut self, task_name: &str, executor: E) where E: TaskExecutor
        requires
            old(self).wf(),
        ensures
            final(self).wf(),
            final(self)@ == registered(old(self)@, task_name@),
            final(self)@.contains(task_name@),
            forall|name: Seq<char>|
                old(self)@.contains(name) && name != task_name@ ==> final(self).executor_of(name)
                    == #[trigger] old(self).executor_of(name),
    {
        let ghost before = self@;
        let ghost slots = self.executors@;
        match find_name(&self.names, task_name) {
            Some(i) => {
                let boxed: Box<dyn TaskExecutor> = Box::new(executor);
                self.executors.set(i, Arc::new(boxed));
                assert(before[i as int] == task_name@);
                assert forall|name: Seq<char>|
                    before.contains(name) && name != task_name@ implies #[trigger] self.executor_of(
                    name,
                ) == slots[slot_of(before, name)] by {
                    assert(slot_of(before, name) != i);
                }
            },
            None => {
                self.names.push(task_name.to_owned());
                let boxed: Box<dyn TaskExecutor> = Box::new(executor);
                self.executors.push(Arc::new(boxed));
                assert(self@ =~= before.push(task_name@));
                assert(self@[before.len() as int] == task_name@);
                proof {
                    lemma_push_distinct(before, task_name@);
                }
                assert forall|name: Seq<char>|
                    before.contains(name) && name != task_name@ implies #[trigger] self.executor_of(
                    name,
                ) == slots[slot_of(before, name)] by {
                    let k = slot_of(before, name);
                    assert(self@[k] == name);
                    lemma_slot_of(self@, name, k);
                }
            },
        }
    }

    /// The names of the registered tasks.
    pub fn iter_tasks(&self) -> (r: Vec<String>)
        ensures
            strings_view(r@) == self@,
    {
        let r = self.names.clone();
        assert(strings_view(r@) =~= self@);
        r
    }

    /// The executor registered under `excutor_name`, or the error that
    /// says that there is none.
    pub fn get_executor(&self, excutor_name: &str) -> (r: Result<
        &Arc<Box<dyn TaskExecutor>>,
        SchedulerError,
    >)
        requires
            self.wf(),
        ensures
            r is Ok <==> self@.contains(excutor_name@),
            r matches Ok(executor) ==> *executor == self.executor_of(excutor_name@),
            r matches Err(e) ==> e is TaskExecutionError && e.message() == executor_not_found(
                excutor_name@,
            ),
    {
        match find_name(&self.names, excutor_name) {
            Some(i) => {
                assert(self@[i as int] == excutor_name@);
                proof {
                    lemma_slot_of(self@, excutor_name@, i as int);
                }
                Ok(&self.executors[i])
            },
            None => Err(not_found(excutor_name)),
        }
    }
}

/// The executors of a remote worker by the names of their tasks. Its view
/// is the names, in the order in which they were first registered.
pub struct GrpcWorkersRegistry {
    names: Vec<String>,
    executors: Vec<Arc<Box<dyn AsyncTaskExecutor>>>,
}

impl View for GrpcWorkersRegistry {
    type V = Seq<Seq<char>>;

    closed spec fn view(&self) -> Seq<Seq<char>> {
        strings_view(self.names@)
    }
}

impl GrpcWorkersRegistry {
    /// The invariant of the registry: one executor for each name, and no
    /// name twice.
    pub closed spec fn wf(&self) -> bool {
        &&& self.names@.len() == self.executors@.len()
        &&& distinct_names(self@)
    }

    /// The executor registered under `name`.
    pub closed spec fn executor_of(&self, name: Seq<char>) -> Arc<Box<dyn AsyncTaskExecutor>> {
        self.executors@[slot_of(self@, name)]
    }

    /// A registry without executors.
    pub fn new() -> (r: Self)
        ensures
            r.wf(),
            r@ == Seq::<Seq<char>>::empty(),
    {
        let r = GrpcWorkersRegistry { names: Vec::new(), executors: Vec::new() };
        assert(r@ =~= Seq::<Seq<char>>::empty());
        r
    }

    /// Registers `executor` under `task_name`. Where the name was taken,
    /// the new executor stands in for the old one. The executors under
    /// other names stay.
    pub fn register_task<E>(&mut self, task_name: &str, executor: E) where E: AsyncTaskExecutor
        requires
            old(self).wf(),
        ensures
            final(self).wf(),
            final(self)@ == registered(old(self)@, task_name@),
            final(self)@.contains(task_name@),
            forall|name: Seq<char>|
                old(self)@.contains(name) && name != task_name@ ==> final(self).executor_of(name)
                    == #[trigger] old(self).executor_of(name),
    {
        let ghost before = self@;
        let ghost slots = self.executors@;
        match find_name(&self.names, task_name) {
            Some(i) => {
                let boxed: Box<dyn AsyncTaskExecutor> = Box::new(executor);
                self.executors.set(i, Arc::new(boxed));
                assert(before[i as int] == task_name@);
                assert forall|name: Seq<char>|
                    before.contains(name) && name != task_name@ implies #[trigger] self.executor_of(
                    name,
                ) == slots[slot_of(before, name)] by {
                    assert(slot_of(before, name) != i);
                }
            },
            None => {
                self.names.push(task_name.to_owned());
                let boxed: Box<dyn AsyncTaskExecutor> = Box::new(executor);
                self.executors.push(Arc::new(boxed));
                assert(self@ =~= before.push(task_name@));
                assert(self@[before.len() as int] == task_name@);
                proof {
                    lemma_push_distinct(before, task_name@);
                }
                assert forall|name: Seq<char>|
                    before.contains(name) && name != task_name@ implies #[trigger] self.executor_of(
                    name,
                ) == slots[slot_of(before, name)] by {
                    let k = slot_of(before, name);
                    assert(self@[k] == name);
                    lemma_slot_of(self@, name, k);
                }
            },
        }
    }

    /// The executor registered under `excutor_name`, or the error that
    /// says that there is none.
    pub fn get_executor(&self, excutor_name: &str) -> (r: Result<
        &Arc<Box<dyn AsyncTaskExecutor>>,
        SchedulerError,
    >)
        requires
            self.wf(),
        ensures
            r is Ok <==> self@.contains(excutor_name@),
            r matches Ok(executor) ==> *executor == self.executor_of(excutor_name@),
            r matches Err(e) ==> e is TaskExecutionError && e.message() == executor_not_found(
                excutor_name@,
            ),
    {
        match find_name(&self.names, excutor_name) {
            Some(i) => {
                assert(self@[i as int] == excutor_name@);
                proof {
                    lemma_slot_of(self@, excutor_name@, i as int);
                }
                Ok(&self.executors[i])
            },
            None => Err(not_found(excutor_name)),
        }
    }
}

/// The state that the workers of a pool share with the pool: the queue of
/// jobs, the counters that observers read, and the pool's settings. Its view
/// is the `PoolState`.
pub struct WorkerPoolSharedData {
    name: Option<String>,
    job_receiver: Vec<Job>,
    connected: bool,
    join_generation: usize,
    queued_count: usize,
    active_count: usize,
    max_thread_count: usize,
    panic_count: usize,
    stack_size: Option<usize>,
    job_counter: usize,
    force_shutdown: bool,
}

impl View for WorkerPoolSharedData {
    type V = PoolState;

    closed spec fn view(&self) -> PoolState {
        PoolState {
            queue: self.job_receiver@,
            connected: self.connected,
            queued_count: self.queued_count as nat,
            active_count: self.active_count as nat,
            max_thread_count: self.max_thread_count as nat,
            panic_count: self.panic_count as nat,
            job_counter: self.job_counter as nat,
            join_generation: self.join_generation as nat,
            force_shutdown: self.force_shutdown,
        }
    }
}

/// The view of an optional text.
pub open spec fn text_option_view(text: Option<String>) -> Option<Seq<char>> {
    match text {
        Some(t) => Some(t@),
        None => None,
    }
}

/// What a joiner is told to do.
#[derive(Clone, Copy, Debug, PartialEq, Eq, Structural)]
pub enum JoinStep {
    /// Go on: the pool is at rest, or shutting down by force, or another
    /// joiner has let this generation go.
    Return,
    /// Wait until the pool says that it is at rest, then come back with
    /// this ticket.
    Wait(usize),
}

impl WorkerPoolSharedData {
    /// The invariant of the shared state: that of its view, within the
    /// numbers of the machine.
    pub open spec fn wf(&self) -> bool {
        &&& self@.wf()
        &&& self@.job_counter <= usize::MAX
        &&& self@.join_generation <= usize::MAX
    }

    /// The name of the pool.
    pub closed spec fn name(&self) -> Option<Seq<char>> {
        text_option_view(self.name)
    }

    /// The stack size of the pool's threads.
    pub closed spec fn stack_size(&self) -> Option<usize> {
        self.stack_size
    }

    /// The shared state of a pool of `num_threads` workers, with nothing
    /// enqueued.
    pub fn new(
        num_threads: usize,
        thread_stack_size: Option<usize>,
        force_shutdown: bool,
        pool_name: Option<String>,
    ) -> (r: Self)
        ensures
            r.wf(),
            r@ == PoolState::fresh(num_threads as nat, force_shutdown),
            r.name() == text_option_view(pool_name),
            r.stack_size() == thread_stack_size,
    {
        let r = WorkerPoolSharedData {
            name: pool_name,
            job_receiver: Vec::new(),
            connected: true,
            join_generation: 0,
            queued_count: 0,
            active_count: 0,
            max_thread_count: num_threads,
            panic_count: 0,
            job_counter: 0,
            force_shutdown,
            stack_size: thread_stack_size,
        };
        assert(r@.queue =~= Seq::<Job>::empty());
        r
    }

    /// Whether a job waits or runs.
    pub fn has_work(&self) -> (r: bool)
        ensures
            r == self@.has_work(),
    {
        self.queued_count > 0 || self.active_count > 0
    }

    /// Whether the joiners are to be woken now: they are when no work is
    /// left.
    pub fn no_work_notify_all(&self) -> (r: bool)
        ensures
            r == !self@.has_work(),
    {
        !self.has_work()
    }

    /// The name of the pool.
    pub fn get_name(&self) -> (r: Option<String>)
        ensures
            text_option_view(r) == self.name(),
    {
        match &self.name {
            Some(n) => Some(n.clone()),
            None => None,
        }
    }

    /// The stack size of the pool's threads.
    pub fn get_stack_size(&self) -> (r: Option<usize>)
        ensures
            r == self.stack_size(),
    {
        self.stack_size
    }

    /// The number of running jobs and the number of workers.
    pub fn load_thread_metrics(&self) -> (r: (usize, usize))
        ensures
            r.0 == self@.active_count,
            r.1 == self@.max_thread_count,
    {
        (self.active_count, self.max_thread_count)
    }

    /// The number of waiting jobs.
    pub fn queued_count(&self) -> (r: usize)
        ensures
            r == self@.queued_count,
    {
        self.queued_count
    }

    /// The number of jobs that ended in a panic.
    pub fn panic_count(&self) -> (r: usize)
        ensures
            r == self@.panic_count,
    {
        self.panic_count
    }

    /// The number that the next job gets.
    pub fn job_counter(&self) -> (r: usize)
        ensures
            r == self@.job_counter,
    {
        self.job_counter
    }

    /// Whether jobs can still be enqueued.
    pub fn is_connected(&self) -> (r: bool)
        ensures
            r == self@.connected,
    {
        self.connected
    }

    /// Whether joiners are let go while work is left.
    pub fn is_force_shutdown(&self) -> (r: bool)
        ensures
            r == self@.force_shutdown,
    {
        self.force_shutdown
    }

    /// Puts `job` at the end of the queue and counts it.
    pub fn enqueue(&mut self, job: Job)
        requires
            old(self).wf(),
            old(self)@.job_counter < usize::MAX,
            job.runnable(),
            job.id == old(self)@.job_counter,
        ensures
            final(self).wf(),
            final(self)@ == old(self)@.enqueue(job),
            final(self).name() == old(self).name(),
            final(self).stack_size() == old(self).stack_size(),
    {
        let ghost before = self@;
        self.job_receiver.push(job);
        self.queued_count = self.queued_count + 1;
        self.job_counter = self.job_counter + 1;
        proof {
            let next = before.enqueue(job);
            assert(self@ == next);
            assert forall|i: int, j: int| 0 <= i < j < next.queue.len() implies (
            #[trigger] next.queue[i]).id < (#[trigger] next.queue[j]).id by {
                if j < before.queue.len() {
                    assert(before.queue[i].id < before.queue[j].id);
                } else {
                    assert(before.queue[i].id < before.job_counter);
                }
            }
        }
    }

    /// Accounts for a new execution: where a job waits and a worker is
    /// free, takes the oldest job off the queue, moves one unit from the
    /// waiting to the running, and hands the job out. Otherwise nothing
    /// changes.
    pub fn process_new_excution_metrics(&mut self) -> (r: Option<Job>)
        requires
            old(self).wf(),
        ensures
            final(self).wf(),
            final(self).name() == old(self).name(),
            final(self).stack_size() == old(self).stack_size(),
            old(self)@.can_start() ==> r == Some(old(self)@.queue[0]),
            old(self)@.can_start() ==> final(self)@ == old(self)@.start(),
            !old(self)@.can_start() ==> r is None && final(self)@ == old(self)@,
            r matches Some(job) ==> job.runnable(),
    {
        if self.job_receiver.len() == 0 || self.active_count >= self.max_thread_count {
            return None;
        }
        let ghost before = self@;
        let job = self.job_receiver.remove(0);
        self.active_count = self.active_count + 1;
        self.queued_count = self.queued_count - 1;
        proof {
            assert(self.job_receiver@ =~= before.queue.drop_first());
            assert(self@ == before.start());
            lemma_step_keeps_wf(before, PoolEvent::Start);
        }
        Some(job)
    }

    /// Accounts for a job that has returned: one job fewer runs.
    pub fn decrement_thread_active(&mut self)
        requires
            old(self).wf(),
            old(self)@.active_count > 0,
        ensures
            final(self).wf(),
            final(self)@ == old(self)@.finish(),
            final(self).name() == old(self).name(),
            final(self).stack_size() == old(self).stack_size(),
    {
        self.active_count = self.active_count - 1;
    }

    /// Accounts for a job that has panicked: one job fewer runs, and one
    /// more has panicked.
    pub fn record_panic(&mut self)
        requires
            old(self).wf(),
            old(self)@.active_count > 0,
        ensures
            final(self).wf(),
            final(self)@ == old(self)@.panicked(),
            final(self).name() == old(self).name(),
            final(self).stack_size() == old(self).stack_size(),
    {
        self.active_count = self.active_count - 1;
        self.panic_count = self.panic_count + 1;
    }

    /// Closes the side that enqueues. The jobs that wait stay.
    pub fn disconnect(&mut self)
        requires
            old(self).wf(),
        ensures
            final(self).wf(),
            final(self)@ == old(self)@.close(),
            final(self).name() == old(self).name(),
            final(self).stack_size() == old(self).stack_size(),
    {
        self.connected = false;
    }

    /// One turn of a joiner. Without a ticket it comes for the first time:
    /// it returns at once where the pool is at rest, else it takes the
    /// present generation as its ticket. With a ticket it waits on as long
    /// as work is left and its generation stands, unless the pool shuts
    /// down by force; the first joiner to find the pool at rest lets the
    /// generation go.
    pub fn join(&mut self, ticket: Option<usize>) -> (r: JoinStep)
        requires
            old(self).wf(),
        ensures
            final(self).wf(),
            final(self)@ == old(self)@.join(ticket),
            final(self).name() == old(self).name(),
            final(self).stack_size() == old(self).stack_size(),
            old(self)@.join_waits(ticket) ==> r == JoinStep::Wait(
                old(self)@.ticket_generation(ticket) as usize,
            ),
            !old(self)@.join_waits(ticket) ==> r == JoinStep::Return,
    {
        let generation = match ticket {
            Some(g) => g,
            None => {
                if !self.has_work() {
                    return JoinStep::Return;
                }
                self.join_generation
            },
        };
        if generation == self.join_generation && self.has_work() {
            if self.force_shutdown {
                return JoinStep::Return;
            }
            return JoinStep::Wait(generation);
        }
        if self.join_generation == generation {
            self.join_generation = generation.wrapping_add(1);
        }
        JoinStep::Return
    }
}

/// What takes the place of a worker whose job has panicked.
#[derive(Debug, PartialEq, Eq)]
pub struct Respawn {
    /// The new worker, with the number of the old one.
    pub worker: LocalWorker,
    /// The thread that it is to run on.
    pub thread: WorkerThread,
    /// Whether the joiners are to be woken.
    pub notify: bool,
}

/// The guard of a worker's loop. It is armed while the loop runs. A loop
/// that ends in order retires it with `cancel`; one that is torn down by a
/// panic leaves it armed, and its release then makes up for the lost
/// worker.
#[derive(Debug, PartialEq, Eq)]
pub struct Sentinel {
    pub worker_id: usize,
    pub active: bool,
}

impl Sentinel {
    /// An armed sentinel for worker `worker_id`.
    pub fn new(worker_id: usize) -> (r: Sentinel)
        ensures
            r.worker_id == worker_id,
            r.active,
    {
        Sentinel { worker_id, active: true }
    }

    /// Disarms the sentinel: its release will change nothing.
    pub fn cancel(self) -> (r: Sentinel)
        ensures
            r.worker_id == self.worker_id,
            !r.active,
    {
        Sentinel { worker_id: self.worker_id, active: false }
    }

    /// Lets the sentinel go. A disarmed one changes nothing and returns
    /// nothing. An armed one accounts for the job that its worker was
    /// running: one job fewer runs, one more has panicked if `panicking`,
    /// and a new worker with the same number takes the place of the old.
    pub fn release(self, shared_data: &mut WorkerPoolSharedData, panicking: bool) -> (r: Option<
        Respawn,
    >)
        requires
            old(shared_data).wf(),
            self.active ==> old(shared_data)@.active_count > 0,
        ensures
            final(shared_data).wf(),
            final(shared_data).name() == old(shared_data).name(),
            final(shared_data).stack_size() == old(shared_data).stack_size(),
            !self.active ==> r is None && final(shared_data)@ == old(shared_data)@,
            self.active ==> r is Some && final(shared_data)@ == (if panicking {
                old(shared_data)@.panicked()
            } else {
                old(shared_data)@.finish()
            }),
            r matches Some(respawn) ==> {
                &&& respawn.worker.id == self.worker_id
                &&& respawn.worker.is_active
                &&& respawn.notify == !final(shared_data)@.has_work()
                &&& is_thread_of(
                    respawn.thread,
                    self.worker_id as nat,
                    old(shared_data).name(),
                    old(shared_data).stack_size(),
                )
            },
    {
        if !self.active {
            return None;
        }
        if panicking {
            shared_data.record_panic();
        } else {
            shared_data.decrement_thread_active();
        }
        let notify = shared_data.no_work_notify_all();
        let (worker, thread) = spawn_in_pool(self.worker_id, shared_data);
        Some(Respawn { worker, thread, notify })
    }
}

/// The registry that a pool starts with: the one it was given, or an empty
/// one.
fn init_registry(executors: Option<TaskRegistry>) -> (r: TaskRegistry)
    requires
        executors matches Some(registry) ==> registry.wf(),
    ensures
        r.wf(),
        executors matches Some(registry) ==> r == registry,
        executors is None ==> r@ == Seq::<Seq<char>>::empty(),
{
    match executors {
        Some(registry) => registry,
        None => TaskRegistry::new(),
    }
}

/// The shared state of a pool of `num_threads` workers together with its
/// workers, numbered from zero and started.
pub fn initialize_thread_pool(
    num_threads: usize,
    thread_stack_size: Option<usize>,
    force_shutdown: bool,
    pool_name: Option<String>,
) -> (r: (WorkerPoolSharedData, Vec<LocalWorker>))
    ensures
        r.0.wf(),
        r.0@ == PoolState::fresh(num_threads as nat, force_shutdown),
        r.0.name() == text_option_view(pool_name),
        r.0.stack_size() == thread_stack_size,
        staffed(r.1@, num_threads as nat),
{
    let shared_data = WorkerPoolSharedData::new(
        num_threads,
        thread_stack_size,
        force_shutdown,
        pool_name,
    );
    let mut workers: Vec<LocalWorker> = Vec::new();
    let mut id: usize = 0;
    while id < num_threads
        invariant
            0 <= id <= num_threads,
            staffed(workers@, id as nat),
        decreases num_threads - id,
    {
        let mut worker = LocalWorker::new(id);
        worker.spawn(&shared_data);
        workers.push(worker);
        id = id + 1;
    }
    (shared_data, workers)
}

/// Whether `workers` are the `count` workers of a pool: numbered from zero
/// in order, and all of them started.
pub open spec fn staffed(workers: Seq<LocalWorker>, count: nat) -> bool {
    &&& workers.len() == count
    &&& forall|i: int| 0 <= i < workers.len() ==> (#[trigger] workers[i]).id == i && workers[i].is_active
}

/// A new worker with the number `worker_id`, started, and its thread.
fn spawn_in_pool(worker_id: usize, shared_data: &WorkerPoolSharedData) -> (r: (
    LocalWorker,
    WorkerThread,
))
    ensures
        r.0.id == worker_id,
        r.0.is_active,
        is_thread_of(r.1, worker_id as nat, shared_data.name(), shared_data.stack_size()),
{
    let mut worker = LocalWorker::new(worker_id);
    let thread = worker.spawn(shared_data);
    (worker, thread)
}

/// The settings of a pool that is yet to be built.
pub struct Builder {
    pub name: Option<String>,
    pub num_workers: Option<usize>,
    pub thread_stack_size: Option<usize>,
    pub workers_type: WorkerType,
    pub force_shutdown: Option<bool>,
    pub executors: Option<TaskRegistry>,
}

/// The text of the error for a pool of remote workers.
pub open spec fn remote_pool_refused() -> Seq<char> {
    "Cant serve gRPC based workers currently"@
}

impl Builder {
    /// Settings that fix nothing: local workers, and the rest left open.
    pub fn new() -> (r: Builder)
        ensures
            r.name is None,
            r.num_workers is None,
            r.thread_stack_size is None,
            r.workers_type == WorkerType::Local,
            r.force_shutdown is None,
            r.executors is None,
    {
        Builder {
            name: None,
            num_workers: None,
            thread_stack_size: None,
            workers_type: WorkerType::Local,
            force_shutdown: None,
            executors: None,
        }
    }

    /// Asks for workers in other processes.
    pub fn grpc_workers(self) -> (r: Builder)
        ensures
            r == (Builder { workers_type: WorkerType::Remote, ..self }),
    {
        let mut r = self;
        r.workers_type = WorkerType::Remote;
        r
    }

    /// Fixes the number of workers.
    pub fn num_workers(self, num_workers: usize) -> (r: Builder)
        ensures
            r == (Builder { num_workers: Some(num_workers), ..self }),
    {
        let mut r = self;
        r.num_workers = Some(num_workers);
        r
    }

    /// Names the pool.
    pub fn name(self, name: String) -> (r: Builder)
        ensures
            r == (Builder { name: Some(name), ..self }),
    {
        let mut r = self;
        r.name = Some(name);
        r
    }

    /// Fixes the size of the stack of each worker's thread.
    pub fn thread_stack_size(self, thread_stack_size: usize) -> (r: Builder)
        ensures
            r == (Builder { thread_stack_size: Some(thread_stack_size), ..self }),
    {
        let mut r = self;
        r.thread_stack_size = Some(thread_stack_size);
        r
    }

    /// Lets joiners go while work is left.
    pub fn with_force_shutdown(self) -> (r: Builder)
        ensures
            r == (Builder { force_shutdown: Some(true), ..self }),
    {
        let mut r = self;
        r.force_shutdown = Some(true);
        r
    }

    /// Gives the pool its executors.
    pub fn executors(self, executors: TaskRegistry) -> (r: Builder)
        ensures
            r == (Builder { executors: Some(executors), ..self }),
    {
        let mut r = self;
        r.executors = Some(executors);
        r
    }

    /// Whether the settings can be built: a registry that they hold is
    /// well formed.
    pub open spec fn wf(self) -> bool {
        self.executors matches Some(registry) ==> registry.wf()
    }

    /// Whether `pool` is the pool that these settings ask for, with
    /// `workers` workers.
    pub open spec fn builds(self, pool: WorkerPool, workers: nat) -> bool {
        &&& pool.wf()
        &&& pool@ == PoolState::fresh(
            workers,
            match self.force_shutdown {
                Some(force) => force,
                None => false,
            },
        )
        &&& pool.shared().name() == text_option_view(self.name)
        &&& pool.shared().stack_size() == self.thread_stack_size
        &&& match self.executors {
            Some(registry) => pool.registry() == registry,
            None => pool.registry()@ == Seq::<Seq<char>>::empty(),
        }
    }

    /// Builds the pool, with `cpus` workers where the settings leave their
    /// number open. A pool of remote workers is refused.
    pub fn build_with(self, cpus: usize) -> (r: Result<WorkerPool, SchedulerError>)
        requires
            self.wf(),
        ensures
            self.workers_type == WorkerType::Remote ==> (r matches Err(e) && e is PoolCreationError
                && e.message() == remote_pool_refused()),
            self.workers_type == WorkerType::Local ==> (r matches Ok(pool) && self.builds(
                pool,
                match self.num_workers {
                    Some(n) => n as nat,
                    None => cpus as nat,
                },
            )),
    {
        let num_workers = match self.num_workers {
            Some(n) => n,
            None => cpus,
        };
        let force_shutdown = match self.force_shutdown {
            Some(force) => force,
            None => false,
        };
        match self.workers_type {
            WorkerType::Local => {
                let (shared_data, workers) = initialize_thread_pool(
                    num_workers,
                    self.thread_stack_size,
                    force_shutdown,
                    self.name,
                );
                let registry = init_registry(self.executors);
                Ok(WorkerPool { shared_data, executors: registry, workers })
            },
            WorkerType::Remote => Err(
                SchedulerError::PoolCreationError(
                    String::from_str("Cant serve gRPC based workers currently"),
                ),
            ),
        }
    }

    /// Builds the pool. Where the settings leave the number of workers
    /// open, there is one for each processor that this process may run on.
    pub fn build(self) -> (r: Result<WorkerPool, SchedulerError>)
        requires
            self.wf(),
        ensures
            self.workers_type == WorkerType::Remote ==> (r matches Err(e) && e is PoolCreationError
                && e.message() == remote_pool_refused()),
            self.workers_type == WorkerType::Local ==> (r matches Ok(pool) && self.builds(
                pool,
                pool@.max_thread_count,
            ) && match self.num_workers {
                Some(n) => pool@.max_thread_count == n,
                None => pool@.max_thread_count >= 1,
            }),
    {
        let cpus = match self.num_workers {
            Some(n) => n,
            None => num_cpus::get(),
        };
        self.build_with(cpus)
    }
}

/// A pool with workers of the other kind, which is not built yet.
pub struct GrpcWorkerPool {
    pub execute_channel: Option<Vec<ExecuteRequest>>,
}

/// The request that is enqueued for `args` as job `id`: the task as the
/// caller gave it, and the number of the job in decimal as the identifier
/// of the execution.
pub open spec fn stamped(args: ExecuteRequestView, id: nat) -> ExecuteRequestView {
    ExecuteRequestView { task: args.task, execution_id: decimal_digits(id) }
}

/// The text of the error for a request without a task.
pub open spec fn task_missing() -> Seq<char> {
    "task execution must include valid data"@
}

/// The text of the error for a pool that takes no more jobs.
pub open spec fn pool_closed() -> Seq<char> {
    "Couldn't excute the job as the WorkerPool is not initalized properly"@
}

/// The worker pool: the state its workers share, its executors and its
/// workers. Its view is the `PoolState`.
pub struct WorkerPool {
    shared_data: WorkerPoolSharedData,
    executors: TaskRegistry,
    workers: Vec<LocalWorker>,
}

impl View for WorkerPool {
    type V = PoolState;

    open spec fn view(&self) -> PoolState {
        self.shared()@
    }
}

impl WorkerPool {
    /// The state that the workers share.
    pub closed spec fn shared(&self) -> WorkerPoolSharedData {
        self.shared_data
    }

    /// The executors of the pool.
    pub closed spec fn registry(&self) -> TaskRegistry {
        self.executors
    }

    /// The workers of the pool.
    pub closed spec fn workers(&self) -> Seq<LocalWorker> {
        self.workers@
    }

    /// The invariant of the pool: that of its parts, and as many started
    /// workers as the shared state counts.
    pub open spec fn wf(&self) -> bool {
        &&& self.shared().wf()
        &&& self.registry().wf()
        &&& staffed(self.workers(), self@.max_thread_count)
    }

    /// Whether the pool has the settings, executors and workers of
    /// `before`.
    pub open spec fn keeps(&self, before: &WorkerPool) -> bool {
        &&& self.shared().name() == before.shared().name()
        &&& self.shared().stack_size() == before.shared().stack_size()
        &&& self.registry() == before.registry()
        &&& self.workers() == before.workers()
    }

    /// A pool of `num_workers` workers, without a name.
    pub fn new(num_workers: usize) -> (r: Result<WorkerPool, SchedulerError>)
        ensures
            r matches Ok(pool) && pool.wf() && pool@ == PoolState::fresh(num_workers as nat, false)
                && pool.shared().name() is None && pool.shared().stack_size() is None
                && pool.registry()@ == Seq::<Seq<char>>::empty(),
    {
        Builder::new().num_workers(num_workers).build()
    }

    /// A pool of `num_workers` workers, named `name`.
    pub fn with_name(name: String, num_workers: usize) -> (r: Result<WorkerPool, SchedulerError>)
        ensures
            r matches Ok(pool) && pool.wf() && pool@ == PoolState::fresh(num_workers as nat, false)
                && pool.shared().name() == Some(name@) && pool.shared().stack_size() is None
                && pool.registry()@ == Seq::<Seq<char>>::empty(),
    {
        Builder::new().num_workers(num_workers).name(name).build()
    }

    /// Enqueues `job` to be called on the request of `args`. The job gets
    /// the next number of the pool, and the request that it is called on
    /// carries that number as the identifier of the execution. A request
    /// without a task is refused, and so is any request once the pool takes
    /// no more jobs; the pool is then left as it was.
    pub fn execute<F>(&mut self, job: F, args: ExecuteRequest) -> (r: Result<
        usize,
        SchedulerError,
    >) where F: FnOnce(ExecuteRequest) + Send + 'static
        requires
            old(self).wf(),
            old(self)@.job_counter < usize::MAX,
            forall|request: ExecuteRequest|
                request@ == stamped(args@, old(self)@.job_counter) ==> call_requires(
                    job,
                    (request,),
                ),
        ensures
            final(self).wf(),
            final(self).keeps(old(self)),
            args@.task is None ==> (r matches Err(e) && e is TaskExecutionError && e.message()
                == task_missing()),
            args@.task is Some && !old(self)@.connected ==> (r matches Err(e)
                && e is TaskExecutionError && e.message() == pool_closed()),
            args@.task is Some && old(self)@.connected ==> r == Ok::<usize, SchedulerError>(
                old(self)@.job_counter as usize,
            ),
            r is Err ==> final(self)@ == old(self)@,
            r is Ok ==> {
                &&& final(self)@ == old(self)@.enqueue(final(self)@.queue.last())
                &&& final(self)@.queue.last().id == old(self)@.job_counter
                &&& final(self)@.queue.last().request() == stamped(args@, old(self)@.job_counter)
                &&& final(self)@.queue.last().done() <==> call_ensures(
                    job,
                    (final(self)@.queue.last().data,),
                    (),
                )
            },
    {
        if args.task.is_none() {
            return Err(
                SchedulerError::TaskExecutionError(
                    String::from_str("task execution must include valid data"),
                ),
            );
        }
        if !self.shared_data.is_connected() {
            return Err(
                SchedulerError::TaskExecutionError(
                    String::from_str(
                        "Couldn't excute the job as the WorkerPool is not initalized properly",
                    ),
                ),
            );
        }
        let job_count = self.shared_data.job_counter();
        let request = ExecuteRequest { task: args.task, execution_id: decimal(job_count as u64) };
        let queued = Job::new(job_count, job, request);
        self.shared_data.enqueue(queued);
        Ok(job_count)
    }

    /// The number of waiting jobs.
    pub fn queued_count(&self) -> (r: usize)
        ensures
            r == self@.queued_count,
    {
        self.shared_data.queued_count()
    }

    /// The number of running jobs.
    pub fn active_count(&self) -> (r: usize)
        ensures
            r == self@.active_count,
    {
        self.shared_data.load_thread_metrics().0
    }

    /// The number of workers.
    pub fn max_count(&self) -> (r: usize)
        ensures
            r == self@.max_thread_count,
    {
        self.shared_data.load_thread_metrics().1
    }

    /// The number of jobs that ended in a panic.
    pub fn panic_count(&self) -> (r: usize)
        ensures
            r == self@.panic_count,
    {
        self.shared_data.panic_count()
    }

    /// The number that the next job gets.
    pub fn job_counter(&self) -> (r: usize)
        ensures
            r == self@.job_counter,
    {
        self.shared_data.job_counter()
    }

    /// Whether a job waits or runs.
    pub fn has_work(&self) -> (r: bool)
        ensures
            r == self@.has_work(),
    {
        self.shared_data.has_work()
    }

    /// One turn of a joiner, which waits for the pool to come to rest. It
    /// comes without a ticket the first time and with the ticket that it
    /// was given after that. It is told to return where no work is left,
    /// where the pool shuts down by force, and where another joiner has
    /// seen the pool at rest since it took its ticket; else it is told to
    /// wait. The first joiner that finds the pool at rest after waiting
    /// lets the generation go.
    pub fn join(&mut self, ticket: Option<usize>) -> (r: JoinStep)
        requires
            old(self).wf(),
        ensures
            final(self).wf(),
            final(self).keeps(old(self)),
            final(self)@ == old(self)@.join(ticket),
            old(self)@.join_waits(ticket) ==> r == JoinStep::Wait(
                old(self)@.ticket_generation(ticket) as usize,
            ),
            !old(self)@.join_waits(ticket) ==> r == JoinStep::Return,
            r == JoinStep::Return ==> !final(self)@.has_work() || final(self)@.force_shutdown
                || old(self)@.ticket_generation(ticket) != old(self)@.join_generation,
    {
        self.shared_data.join(ticket)
    }

    /// Stops taking jobs. Those that wait or run are left to the workers.
    pub fn shutdown(&mut self)
        requires
            old(self).wf(),
        ensures
            final(self).wf(),
            final(self).keeps(old(self)),
            final(self)@ == old(self)@.close(),
    {
        self.shared_data.disconnect();
    }

    /// The top of a worker's loop: see `take_job`.
    pub fn take_job(&mut self) -> (r: WorkerStep)
        requires
            old(self).wf(),
        ensures
            final(self).wf(),
            final(self).keeps(old(self)),
            old(self)@.can_start() ==> r == WorkerStep::Run(old(self)@.queue[0]),
            old(self)@.can_start() ==> final(self)@ == old(self)@.start(),
            !old(self)@.can_start() ==> final(self)@ == old(self)@,
            !old(self)@.can_start() ==> r == old(self)@.no_job_step(),
            r matches WorkerStep::Run(job) ==> job.runnable(),
    {
        take_job(&mut self.shared_data)
    }

    /// The bottom of a worker's loop: see `finish_job`.
    pub fn finish_job(&mut self) -> (r: bool)
        requires
            old(self).wf(),
            old(self)@.active_count > 0,
        ensures
            final(self).wf(),
            final(self).keeps(old(self)),
            final(self)@ == old(self)@.finish(),
            r == !final(self)@.has_work(),
            r <==> (old(self)@.queued_count == 0 && old(self)@.active_count == 1),
    {
        finish_job(&mut self.shared_data)
    }

    /// Absorbs the panic of the job that worker `worker_id` was running:
    /// the job no longer counts as running, it counts as panicked, and a
    /// new worker with the same number takes the place of the old one, so
    /// that the pool has as many workers as before.
    pub fn recover(&mut self, worker_id: usize) -> (r: Respawn)
        requires
            old(self).wf(),
            old(self)@.active_count > 0,
            worker_id < old(self)@.max_thread_count,
        ensures
            final(self).wf(),
            final(self).keeps(old(self)),
            final(self)@ == old(self)@.panicked(),
            final(self)@.panic_count == old(self)@.panic_count + 1,
            final(self).workers().len() == final(self)@.max_thread_count,
            r.worker == final(self).workers()[worker_id as int],
            r.notify == !final(self)@.has_work(),
            is_thread_of(
                r.thread,
                worker_id as nat,
                old(self).shared().name(),
                old(self).shared().stack_size(),
            ),
    {
        let sentinel = Sentinel::new(worker_id);
        let respawn = sentinel.release(&mut self.shared_data, true).unwrap();
        let ghost before = self.workers@;
        let worker = LocalWorker { id: respawn.worker.id, is_active: respawn.worker.is_active };
        self.workers.set(worker_id, worker);
        assert(self.workers@ =~= before);
        respawn
    }

    /// The executors of the pool.
    pub fn executors(&self) -> (r: &TaskRegistry)
        ensures
            *r == self.registry(),
    {
        &self.executors
    }

    /// Registers `executor` under `task_name` with the pool.
    pub fn register_task<E>(&mut self, task_name: &str, executor: E) where E: TaskExecutor
        requires
            old(self).wf(),
        ensures
            final(self).wf(),
            final(self).shared() == old(self).shared(),
            final(self).workers() == old(self).workers(),
            final(self).registry()@ == registered(old(self).registry()@, task_name@),
            final(self).registry()@.contains(task_name@),
            forall|name: Seq<char>|
                old(self).registry()@.contains(name) && name != task_name@ ==> final(self).registry().executor_of(
                    name,
                ) == #[trigger] old(self).registry().executor_of(name),
    {
        self.executors.register_task(task_name, executor);
    }

    /// The threads of the pool's workers, in the order of their numbers.
    pub fn threads(&self) -> (r: Vec<WorkerThread>)
        requires
            self.wf(),
        ensures
            r@.len() == self@.max_thread_count,
            forall|i: int|
                0 <= i < r@.len() ==> is_thread_of(
                    #[trigger] r@[i],
                    i as nat,
                    self.shared().name(),
                    self.shared().stack_size(),
                ),
    {
        let mut out: Vec<WorkerThread> = Vec::new();
        let mut i: usize = 0;
        while i < self.workers.len()
            invariant
                0 <= i <= self.workers@.len(),
                staffed(self.workers@, self.workers@.len()),
                out@.len() == i,
                forall|k: int|
                    0 <= k < i ==> is_thread_of(
                        #[trigger] out@[k],
                        k as nat,
                        self.shared_data.name(),
                        self.shared_data.stack_size(),
                    ),
            decreases self.workers@.len() - i,
        {
            out.push(self.workers[i].thread(&self.shared_data));
            i = i + 1;
        }
        out
    }
}

impl Default for WorkerPool {
    /// A pool without a name, with one worker for each processor that this
    /// process may run on.
    fn default() -> (r: Self)
        ensures
            r.wf(),
            r@ == PoolState::fresh(r@.max_thread_count, false),
            r@.max_thread_count >= 1,
            r.shared().name() is None,
            r.shared().stack_size() is None,
            r.registry()@ == Seq::<Seq<char>>::empty(),
    {
        WorkerPool::new(num_cpus::get()).unwrap()
    }
}

} // verus!
