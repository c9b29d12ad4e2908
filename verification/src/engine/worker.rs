//! The workers of the pool: what a worker is, the thread it asks for, and
//! the loop it runs.

use crate::engine::job::Job;
use crate::engine::pool_state::PoolState;
use crate::engine::worker_pool::Sentinel;
use crate::engine::worker_pool::text_option_view;
use crate::engine::worker_pool::WorkerPoolSharedData;
use crate::utils::text::decimal_digits;
use crate::utils::text::decimal;
use vstd::prelude::*;
use vstd::string::StringExecFns;

verus! {

/// Where the workers of a pool run.
#[derive(Default, Debug, Clone, Copy, PartialEq, Eq, Structural)]
pub enum WorkerType {
    /// On threads of this process.
    #[default]
    Local,
    /// In other processes.
    Remote,
}

/// The thread that a worker is to run on.
#[derive(Debug, PartialEq, Eq)]
pub struct WorkerThread {
    /// The number of the worker.
    pub worker_id: usize,
    /// The name of the thread, where the pool has a name.
    pub name: Option<String>,
    /// The size of the thread's stack, where the pool fixes one.
    pub stack_size: Option<usize>,
}

/// The name of the thread of worker `id` in a pool named `pool`: the name of
/// the pool, a hyphen, and the number of the worker.
pub open spec fn thread_name(pool: Seq<char>, id: nat) -> Seq<char> {
    pool + seq!['-'] + decimal_digits(id)
}

/// Whether `thread` is the thread of worker `id` in a pool with this name
/// and this stack size.
pub open spec fn is_thread_of(
    thread: WorkerThread,
    id: nat,
    pool: Option<Seq<char>>,
    stack_size: Option<usize>,
) -> bool {
    &&& thread.worker_id == id
    &&& thread.stack_size == stack_size
    &&& text_option_view(thread.name) == match pool {
        Some(p) => Some(thread_name(p, id)),
        None => None,
    }
}

/// A worker of a pool.
pub trait Worker: Send + Sync {
    /// The number of the worker.
    spec fn id(&self) -> nat;

    /// Whether the worker's thread was asked for.
    spec fn spawned(&self) -> bool;

    /// A worker with this number that has no thread yet.
    fn new(id: usize) -> (r: Self) where Self: Sized
        ensures
            r.id() == id,
            !r.spawned(),
    ;

    /// Starts the worker: says on which thread its loop is to run.
    fn spawn(&mut self, shared_data: &WorkerPoolSharedData) -> (r: WorkerThread)
        ensures
            final(self).id() == old(self).id(),
            final(self).spawned(),
            is_thread_of(r, old(self).id(), shared_data.name(), shared_data.stack_size()),
    ;
}

/// A worker that runs on a thread of this process.
#[derive(Debug, PartialEq, Eq)]
pub struct LocalWorker {
    pub id: usize,
    pub is_active: bool,
}

impl LocalWorker {
    /// The thread of this worker in the pool of `shared_data`.
    pub fn thread(&self, shared_data: &WorkerPoolSharedData) -> (r: WorkerThread)
        ensures
            is_thread_of(r, self.id as nat, shared_data.name(), shared_data.stack_size()),
    {
        let name = match shared_data.get_name() {
            Some(pool) => {
                let mut text = pool;
                proof {
                    reveal_strlit("-");
                }
                text.append("-");
                text.append(decimal(self.id as u64).as_str());
                assert(text@ =~= thread_name(pool@, self.id as nat));
                Some(text)
            },
            None => None,
        };
        WorkerThread { worker_id: self.id, name, stack_size: shared_data.get_stack_size() }
    }
}

impl Worker for LocalWorker {
    open spec fn id(&self) -> nat {
        self.id as nat
    }

    open spec fn spawned(&self) -> bool {
        self.is_active
    }

    fn new(id: usize) -> (r: LocalWorker) {
        LocalWorker { id, is_active: false }
    }

    fn spawn(&mut self, shared_data: &WorkerPoolSharedData) -> (r: WorkerThread) {
        self.is_active = true;
        self.thread(shared_data)
    }
}

/// Makes worker `id` of a pool. Only local workers can be made.
pub fn create_worker(worker_type: WorkerType, id: usize) -> (r: LocalWorker)
    requires
        worker_type == WorkerType::Local,
    ensures
        r.id == id,
        !r.is_active,
{
    LocalWorker::new(id)
}

/// Why a worker leaves its loop.
#[derive(Clone, Copy, Debug, PartialEq, Eq, Structural)]
pub enum WorkerExit {
    /// As many jobs run as there are workers: the pool has shrunk.
    PoolShrunk,
    /// Nothing waits and nothing can be enqueued any more.
    Disconnected,
    /// Nothing waits at the moment.
    Idle,
}

/// What a worker does next.
pub enum WorkerStep {
    /// Run this job, then report that it is done.
    Run(Job),
    /// Sleep until a job is enqueued or the queue is closed.
    Wait,
    /// Leave the loop.
    Exit(WorkerExit),
}

impl PoolState {
    /// Why a worker that looks for a job does not get one.
    pub open spec fn no_job_reason(self) -> WorkerExit {
        if self.active_count >= self.max_thread_count {
            WorkerExit::PoolShrunk
        } else if !self.connected {
            WorkerExit::Disconnected
        } else {
            WorkerExit::Idle
        }
    }

    /// What a worker that looks for a job and gets none does next: it
    /// sleeps where the queue is merely empty, and leaves otherwise.
    pub open spec fn no_job_step(self) -> WorkerStep {
        match self.no_job_reason() {
            WorkerExit::Idle => WorkerStep::Wait,
            reason => WorkerStep::Exit(reason),
        }
    }

    /// The pool with nothing waiting.
    pub open spec fn emptied(self) -> PoolState {
        PoolState { queue: Seq::empty(), queued_count: 0, ..self }
    }
}

/// The top of a worker's loop. The worker leaves where as many jobs run as
/// there are workers. Else it takes the oldest job that waits and the
/// counters move with it. Where nothing waits it leaves if the queue is
/// closed, and sleeps if it is not.
pub fn take_job(binding: &mut WorkerPoolSharedData) -> (r: WorkerStep)
    requires
        old(binding).wf(),
    ensures
        final(binding).wf(),
        final(binding).name() == old(binding).name(),
        final(binding).stack_size() == old(binding).stack_size(),
        old(binding)@.can_start() ==> r == WorkerStep::Run(old(binding)@.queue[0]),
        old(binding)@.can_start() ==> final(binding)@ == old(binding)@.start(),
        !old(binding)@.can_start() ==> final(binding)@ == old(binding)@,
        !old(binding)@.can_start() ==> r == old(binding)@.no_job_step(),
        r matches WorkerStep::Run(job) ==> job.runnable(),
{
    let (thread_counter_val, max_thread_count_val) = binding.load_thread_metrics();
    if thread_counter_val >= max_thread_count_val {
        return WorkerStep::Exit(WorkerExit::PoolShrunk);
    }
    match binding.process_new_excution_metrics() {
        Some(job) => WorkerStep::Run(job),
        None => {
            if binding.is_connected() {
                WorkerStep::Wait
            } else {
                WorkerStep::Exit(WorkerExit::Disconnected)
            }
        },
    }
}

/// The bottom of a worker's loop, after its job has returned: one job
/// fewer runs. Says whether the joiners are to be woken, which is so when
/// no work is left.
pub fn finish_job(binding: &mut WorkerPoolSharedData) -> (r: bool)
    requires
        old(binding).wf(),
        old(binding)@.active_count > 0,
    ensures
        final(binding).wf(),
        final(binding)@ == old(binding)@.finish(),
        final(binding).name() == old(binding).name(),
        final(binding).stack_size() == old(binding).stack_size(),
        r == !final(binding)@.has_work(),
        r <==> (old(binding)@.queued_count == 0 && old(binding)@.active_count == 1),
{
    binding.decrement_thread_active();
    binding.no_work_notify_all()
}

/// The loop of a worker that has the pool to itself: it runs the waiting
/// jobs one after the other, oldest first, until none is left, and then
/// retires its sentinel. Where as many jobs run already as there are
/// workers it leaves at once and runs nothing.
pub fn process_task(binding: &mut WorkerPoolSharedData, sentinel: Sentinel) -> (r: WorkerExit)
    requires
        old(binding).wf(),
    ensures
        final(binding).wf(),
        final(binding).name() == old(binding).name(),
        final(binding).stack_size() == old(binding).stack_size(),
        r == old(binding)@.no_job_reason(),
        final(binding)@ == (if r == WorkerExit::PoolShrunk {
            old(binding)@
        } else {
            old(binding)@.emptied()
        }),
        r != WorkerExit::PoolShrunk ==> forall|i: int|
            0 <= i < old(binding)@.queue.len() ==> (#[trigger] old(binding)@.queue[i]).done(),
{
    let ghost start = binding@;
    let ghost mut ran: int = 0;
    let mut exit = WorkerExit::Idle;
    loop
        invariant_except_break
            0 <= ran <= start.queue.len(),
            binding@.queue == start.queue.subrange(ran, start.queue.len() as int),
            forall|i: int| 0 <= i < ran ==> (#[trigger] start.queue[i]).done(),
            binding.wf(),
            binding.name() == old(binding).name(),
            binding.stack_size() == old(binding).stack_size(),
            binding@ == (PoolState {
                queue: binding@.queue,
                queued_count: binding@.queued_count,
                ..start
            }),
            binding@ == start || start.active_count < start.max_thread_count,
            start.wf(),
            start == old(binding)@,
        ensures
            binding.wf(),
            binding.name() == old(binding).name(),
            binding.stack_size() == old(binding).stack_size(),
            exit == start.no_job_reason(),
            binding@ == (if exit == WorkerExit::PoolShrunk {
                start
            } else {
                start.emptied()
            }),
            exit != WorkerExit::PoolShrunk ==> forall|i: int|
                0 <= i < start.queue.len() ==> (#[trigger] start.queue[i]).done(),
        decreases binding@.queued_count,
    {
        let ghost before = binding@;
        match take_job(binding) {
            WorkerStep::Run(job) => {
                job.execute_job();
                finish_job(binding);
                proof {
                    assert(job == start.queue[ran]);
                    assert(binding@.queue =~= start.queue.subrange(
                        ran + 1,
                        start.queue.len() as int,
                    ));
                    ran = ran + 1;
                }
            },
            WorkerStep::Wait => {
                exit = WorkerExit::Idle;
                assert(binding@.queue =~= Seq::<Job>::empty());
                break ;
            },
            WorkerStep::Exit(reason) => {
                exit = reason;
                proof {
                    if reason != WorkerExit::PoolShrunk {
                        assert(binding@.queue =~= Seq::<Job>::empty());
                    } else {
                        assert(start.active_count >= start.max_thread_count);
                        assert(before.active_count == start.active_count);
                    }
                }
                break ;
            },
        }
    }
    let retired = sentinel.cancel();
    retired.release(binding, false);
    exit
}

} // verus!
