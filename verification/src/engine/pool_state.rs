//! The worker pool as a state machine: what its counters and its queue hold,
//! the steps that change them, and what holds of every state that the steps
//! can reach.

use crate::engine::job::Job;
use vstd::prelude::*;

verus! {

/// What the pool's shared state holds.
pub struct PoolState {
    /// The jobs that wait for a worker, oldest first.
    pub queue: Seq<Job>,
    /// Whether the side that enqueues is still there.
    pub connected: bool,
    /// The number of jobs that wait.
    pub queued_count: nat,
    /// The number of jobs that workers are running.
    pub active_count: nat,
    /// The number of workers.
    pub max_thread_count: nat,
    /// The number of jobs that ended in a panic.
    pub panic_count: nat,
    /// The number of jobs ever enqueued, which numbers the next one.
    pub job_counter: nat,
    /// Counts the times that joiners were let go together.
    pub join_generation: nat,
    /// Whether joiners are let go while work is left.
    pub force_shutdown: bool,
}

/// What can happen to the pool.
pub enum PoolEvent {
    /// A job is enqueued.
    Enqueue(Job),
    /// A worker takes the oldest job and starts it.
    Start,
    /// A job returns.
    Finish,
    /// A job panics and its worker is replaced.
    Panic,
    /// The side that enqueues goes away.
    Close,
    /// A joiner comes by, with the ticket that it has.
    Join(Option<usize>),
}

impl PoolState {
    /// The pool before anything was enqueued.
    pub open spec fn fresh(max_thread_count: nat, force_shutdown: bool) -> PoolState {
        PoolState {
            queue: Seq::empty(),
            connected: true,
            queued_count: 0,
            active_count: 0,
            max_thread_count,
            panic_count: 0,
            job_counter: 0,
            join_generation: 0,
            force_shutdown,
        }
    }

    /// Whether a job waits or runs.
    pub open spec fn has_work(self) -> bool {
        self.queued_count > 0 || self.active_count > 0
    }

    /// The invariant of the pool: the counter of waiting jobs counts the
    /// queue; no more jobs run than there are workers; every job that waits,
    /// runs or panicked was numbered; the queue holds runnable jobs in the
    /// order of their numbers.
    pub open spec fn wf(self) -> bool {
        &&& self.queue.len() == self.queued_count
        &&& self.active_count <= self.max_thread_count
        &&& self.queued_count + self.active_count + self.panic_count <= self.job_counter
        &&& forall|i: int| 0 <= i < self.queue.len() ==> (#[trigger] self.queue[i]).runnable()
        &&& forall|i: int| 0 <= i < self.queue.len() ==> (#[trigger] self.queue[i]).id < self.job_counter
        &&& forall|i: int, j: int|
            0 <= i < j < self.queue.len() ==> (#[trigger] self.queue[i]).id < (
            #[trigger] self.queue[j]).id
    }

    /// The pool with `job` added at the end of the queue.
    pub open spec fn enqueue(self, job: Job) -> PoolState {
        PoolState {
            queue: self.queue.push(job),
            queued_count: self.queued_count + 1,
            job_counter: self.job_counter + 1,
            ..self
        }
    }

    /// Whether a worker can start a job: one waits, and a worker is free.
    pub open spec fn can_start(self) -> bool {
        self.queue.len() > 0 && self.active_count < self.max_thread_count
    }

    /// The pool after a worker has taken the oldest job: one job fewer
    /// waits and one more runs.
    pub open spec fn start(self) -> PoolState {
        PoolState {
            queue: self.queue.drop_first(),
            queued_count: (self.queued_count - 1) as nat,
            active_count: self.active_count + 1,
            ..self
        }
    }

    /// The pool after a job has returned.
    pub open spec fn finish(self) -> PoolState {
        PoolState { active_count: (self.active_count - 1) as nat, ..self }
    }

    /// The pool after a job has panicked.
    pub open spec fn panicked(self) -> PoolState {
        PoolState {
            active_count: (self.active_count - 1) as nat,
            panic_count: self.panic_count + 1,
            ..self
        }
    }

    /// The pool after the side that enqueues has gone.
    pub open spec fn close(self) -> PoolState {
        PoolState { connected: false, ..self }
    }

    /// Whether `event` can happen in this state.
    pub open spec fn enabled(self, event: PoolEvent) -> bool {
        match event {
            PoolEvent::Enqueue(job) => self.connected && job.runnable() && job.id
                == self.job_counter,
            PoolEvent::Start => self.can_start(),
            PoolEvent::Finish => self.active_count > 0,
            PoolEvent::Panic => self.active_count > 0,
            PoolEvent::Close => true,
            PoolEvent::Join(_) => true,
        }
    }

    /// The state after `event`; the state itself where the event cannot
    /// happen.
    pub open spec fn step(self, event: PoolEvent) -> PoolState {
        if !self.enabled(event) {
            self
        } else {
            match event {
                PoolEvent::Enqueue(job) => self.enqueue(job),
                PoolEvent::Start => self.start(),
                PoolEvent::Finish => self.finish(),
                PoolEvent::Panic => self.panicked(),
                PoolEvent::Close => self.close(),
                PoolEvent::Join(ticket) => self.join(ticket),
            }
        }
    }

    /// The state after `events`, one after the other.
    pub open spec fn run(self, events: Seq<PoolEvent>) -> PoolState
        decreases events.len(),
    {
        if events.len() == 0 {
            self
        } else {
            self.run(events.drop_last()).step(events.last())
        }
    }

    /// The generation after this one; the count starts over when it has run
    /// through the numbers of the machine.
    pub open spec fn next_generation(self) -> nat {
        if self.join_generation + 1 > usize::MAX {
            0
        } else {
            self.join_generation + 1
        }
    }

    /// The generation that a joiner waits for: the one on its ticket, or the
    /// present one where it has no ticket yet.
    pub open spec fn ticket_generation(self, ticket: Option<usize>) -> nat {
        match ticket {
            Some(g) => g as nat,
            None => self.join_generation,
        }
    }

    /// Whether a joiner has to wait: work is left, nobody has let its
    /// generation go, and the pool is not shutting down by force.
    pub open spec fn join_waits(self, ticket: Option<usize>) -> bool {
        &&& self.has_work()
        &&& self.ticket_generation(ticket) == self.join_generation
        &&& !self.force_shutdown
    }

    /// Whether a joiner that returns lets its generation go: it has waited,
    /// it finds the pool without work, and nobody did so before it.
    pub open spec fn join_advances(self, ticket: Option<usize>) -> bool {
        &&& ticket is Some
        &&& !self.has_work()
        &&& self.ticket_generation(ticket) == self.join_generation
    }

    /// The pool after a joiner has come by.
    pub open spec fn join(self, ticket: Option<usize>) -> PoolState {
        if self.join_advances(ticket) {
            PoolState { join_generation: self.next_generation(), ..self }
        } else {
            self
        }
    }

    /// How many steps of workers the pool has left in it at most: two for
    /// each job that waits, one for each that runs.
    pub open spec fn work_left(self) -> nat {
        2 * self.queued_count + self.active_count
    }
}

/// Whether `event` is a step of a worker.
pub open spec fn is_worker_step(event: PoolEvent) -> bool {
    event is Start || event is Finish || event is Panic
}

/// Whether `events` are steps of workers, each of which can happen when its
/// turn comes, starting from `state`.
pub open spec fn is_drain(state: PoolState, events: Seq<PoolEvent>) -> bool
    decreases events.len(),
{
    events.len() > 0 ==> {
        &&& is_drain(state, events.drop_last())
        &&& is_worker_step(events.last())
        &&& state.run(events.drop_last()).enabled(events.last())
    }
}

/// The events that enqueue `jobs`, one after the other.
pub open spec fn enqueues(jobs: Seq<Job>) -> Seq<PoolEvent> {
    Seq::new(jobs.len(), |i: int| PoolEvent::Enqueue(jobs[i]))
}

/// Whether `jobs` can be enqueued one after the other into a fresh pool:
/// each is runnable and carries its place as its number.
pub open spec fn numbered(jobs: Seq<Job>) -> bool {
    forall|i: int| 0 <= i < jobs.len() ==> (#[trigger] jobs[i]).runnable() && jobs[i].id == i
}

/// A step keeps the invariant.
pub proof fn lemma_step_keeps_wf(state: PoolState, event: PoolEvent)
    requires
        state.wf(),
    ensures
        state.step(event).wf(),
        state.step(event).max_thread_count == state.max_thread_count,
{
    if state.enabled(event) {
        let next = state.step(event);
        match event {
            PoolEvent::Enqueue(job) => {
                assert forall|i: int, j: int| 0 <= i < j < next.queue.len() implies (
                #[trigger] next.queue[i]).id < (#[trigger] next.queue[j]).id by {
                    if j < state.queue.len() {
                        assert(state.queue[i].id < state.queue[j].id);
                    } else {
                        assert(state.queue[i].id < state.job_counter);
                    }
                }
            },
            PoolEvent::Start => {
                assert forall|i: int| 0 <= i < next.queue.len() implies (
                #[trigger] next.queue[i]).runnable() by {
                    assert(next.queue[i] == state.queue[i + 1]);
                }
                assert forall|i: int| 0 <= i < next.queue.len() implies (#[trigger] next.queue[i]).id
                    < next.job_counter by {
                    assert(next.queue[i] == state.queue[i + 1]);
                }
                assert forall|i: int, j: int| 0 <= i < j < next.queue.len() implies (
                #[trigger] next.queue[i]).id < (#[trigger] next.queue[j]).id by {
                    assert(next.queue[i] == state.queue[i + 1]);
                    assert(next.queue[j] == state.queue[j + 1]);
                }
            },
            _ => {},
        }
    }
}

/// In every state that a fresh pool can reach, the number of running jobs
/// lies between zero and the number of workers.
pub proof fn lemma_active_count_is_bounded(
    max_thread_count: nat,
    force_shutdown: bool,
    events: Seq<PoolEvent>,
)
    ensures
        PoolState::fresh(max_thread_count, force_shutdown).run(events).wf(),
        0 <= PoolState::fresh(max_thread_count, force_shutdown).run(events).active_count
            <= max_thread_count,
        PoolState::fresh(max_thread_count, force_shutdown).run(events).max_thread_count
            == max_thread_count,
    decreases events.len(),
{
    let fresh = PoolState::fresh(max_thread_count, force_shutdown);
    if events.len() > 0 {
        lemma_active_count_is_bounded(max_thread_count, force_shutdown, events.drop_last());
        lemma_step_keeps_wf(fresh.run(events.drop_last()), events.last());
    }
}

/// Right after a job was enqueued one job more waits than before.
pub proof fn lemma_enqueue_counts_one(state: PoolState, job: Job)
    requires
        state.enabled(PoolEvent::Enqueue(job)),
    ensures
        state.step(PoolEvent::Enqueue(job)).queued_count == state.queued_count + 1,
        state.step(PoolEvent::Enqueue(job)).active_count == state.active_count,
{
}

/// When a job returns, the pool is left without work if and only if that
/// job was the last one outstanding: none waited, and no other ran.
pub proof fn lemma_idle_after_last_job(state: PoolState)
    requires
        state.wf(),
        state.enabled(PoolEvent::Finish),
    ensures
        !state.step(PoolEvent::Finish).has_work() <==> (state.queued_count == 0
            && state.active_count == 1),
{
}

/// Every step of a worker uses up one unit of the work that is left.
pub proof fn lemma_worker_step_uses_work(state: PoolState, event: PoolEvent)
    requires
        state.wf(),
        is_worker_step(event),
        state.enabled(event),
    ensures
        state.step(event).work_left() + 1 == state.work_left(),
{
}

/// While work is left in a pool with a worker, a step of a worker can
/// happen: a running job can return, or a free worker can start one.
pub proof fn lemma_work_can_go_on(state: PoolState)
    requires
        state.wf(),
        state.max_thread_count >= 1,
        state.has_work(),
    ensures
        state.enabled(PoolEvent::Finish) || state.enabled(PoolEvent::Start),
{
}

/// Steps of workers alone, with nothing enqueued in between, come to an end:
/// there are never more of them than the work that was left at the start,
/// and they leave the rest of it.
pub proof fn lemma_drain_is_bounded(state: PoolState, steps: Seq<PoolEvent>)
    requires
        state.wf(),
        is_drain(state, steps),
    ensures
        state.run(steps).wf(),
        state.run(steps).work_left() + steps.len() == state.work_left(),
        state.run(steps).max_thread_count == state.max_thread_count,
        state.run(steps).force_shutdown == state.force_shutdown,
    decreases steps.len(),
{
    if steps.len() > 0 {
        lemma_drain_is_bounded(state, steps.drop_last());
        let before = state.run(steps.drop_last());
        lemma_step_keeps_wf(before, steps.last());
        lemma_worker_step_uses_work(before, steps.last());
    }
}

/// Enqueueing numbered jobs into a fresh pool leaves all of them waiting.
pub proof fn lemma_enqueues_wait(max_thread_count: nat, force_shutdown: bool, jobs: Seq<Job>)
    requires
        numbered(jobs),
    ensures
        PoolState::fresh(max_thread_count, force_shutdown).run(enqueues(jobs)).wf(),
        PoolState::fresh(max_thread_count, force_shutdown).run(enqueues(jobs)).queued_count
            == jobs.len(),
        PoolState::fresh(max_thread_count, force_shutdown).run(enqueues(jobs)).active_count == 0,
        PoolState::fresh(max_thread_count, force_shutdown).run(enqueues(jobs)).job_counter
            == jobs.len(),
        PoolState::fresh(max_thread_count, force_shutdown).run(enqueues(jobs)).connected,
        PoolState::fresh(max_thread_count, force_shutdown).run(enqueues(jobs)).max_thread_count
            == max_thread_count,
    decreases jobs.len(),
{
    let fresh = PoolState::fresh(max_thread_count, force_shutdown);
    if jobs.len() > 0 {
        let head = jobs.drop_last();
        assert(numbered(head));
        lemma_enqueues_wait(max_thread_count, force_shutdown, head);
        assert(enqueues(jobs).drop_last() =~= enqueues(head));
        assert(enqueues(jobs).last() == PoolEvent::Enqueue(jobs.last()));
        lemma_step_keeps_wf(fresh.run(enqueues(head)), enqueues(jobs).last());
    }
}

/// After any number of jobs was enqueued into a fresh pool with a worker,
/// and with nothing enqueued after them, the workers come to rest after at
/// most two steps for each job; as long as work is left one of them can go
/// on; and when none can, no work is left.
pub proof fn lemma_pool_drains(
    max_thread_count: nat,
    force_shutdown: bool,
    jobs: Seq<Job>,
    steps: Seq<PoolEvent>,
)
    requires
        max_thread_count >= 1,
        numbered(jobs),
        is_drain(PoolState::fresh(max_thread_count, force_shutdown).run(enqueues(jobs)), steps),
    ensures
        steps.len() <= 2 * jobs.len(),
        ({
            let end = PoolState::fresh(max_thread_count, force_shutdown).run(enqueues(jobs)).run(
                steps,
            );
            &&& end.wf()
            &&& end.has_work() ==> end.enabled(PoolEvent::Finish) || end.enabled(PoolEvent::Start)
            &&& steps.len() == 2 * jobs.len() ==> !end.has_work()
            &&& !end.has_work() ==> forall|ticket: Option<usize>| !end.join_waits(ticket)
        }),
{
    let loaded = PoolState::fresh(max_thread_count, force_shutdown).run(enqueues(jobs));
    lemma_enqueues_wait(max_thread_count, force_shutdown, jobs);
    lemma_drain_is_bounded(loaded, steps);
    let end = loaded.run(steps);
    if end.has_work() {
        lemma_work_can_go_on(end);
    }
}

} // verus!
