//! The fabric of remote workers: the registry of the connected ones, the
//! balancer that picks among them, and what the scheduler does to them.

use crate::engine::load_balancer::LoadBalancer;
use crate::internal::scheduler::ExecuteResponse;
use crate::internal::scheduler::ExecuteResponseView;
use crate::internal::scheduler::RegistrationRequest;
use crate::internal::scheduler::RegistrationRequestView;
use crate::internal::scheduler::SchedulerMessage;
use crate::internal::scheduler::SchedulerMessageType;
use crate::internal::scheduler::SchedulerMessageTypeView;
use crate::internal::scheduler::SchedulerMessageView;
use crate::internal::task::TaskState;
use crate::utils::shared::GrpcWorkerChannels;
use crate::utils::shared::has_worker;
use crate::utils::shared::lemma_place_of;
use crate::utils::shared::lemma_update_keeps_ids;
use crate::utils::shared::messages_view;
use crate::utils::shared::place_of;
use crate::utils::shared::without;
use crate::utils::shared::worker_ids;
use crate::utils::shared::WorkerRecord;
use crate::utils::shared::WorkerRecordView;
use crate::utils::status::Code;
use crate::utils::status::Status;
use crate::utils::status::StatusView;
use crate::utils::text::strings_view;
use vstd::prelude::*;
use vstd::string::StringExecFns;
use vstd::string::StrSliceExecFns;

verus! {

/// The answer to the dispatch of `message`: the task and the execution that
/// an assignment names, in the state `Pending`. A message that assigns
/// nothing has no names to give.
pub open spec fn response_for(message: SchedulerMessageView) -> ExecuteResponseView {
    match message.scheduler_message_type {
        Some(SchedulerMessageTypeView::AssignTask(request)) => ExecuteResponseView {
            task_id: match request.task {
                Some(task) => task.id,
                None => "UnknownTaskId"@,
            },
            execution_id: request.execution_id,
            state: TaskState::Pending,
        },
        _ => ExecuteResponseView {
            task_id: "UnknownTaskId"@,
            execution_id: "UnknownExecutionId"@,
            state: TaskState::Pending,
        },
    }
}

/// The failure of a dispatch for want of a worker.
pub open spec fn no_workers() -> StatusView {
    StatusView { code: Code::Aborted, message: "No available workers"@, details: None }
}

/// The failure of a dispatch to a worker whose queue is full.
pub open spec fn dispatch_failed() -> StatusView {
    StatusView { code: Code::Unavailable, message: "Error while dispatching task"@, details: None }
}

/// The failure of a registration without the right cookie.
pub open spec fn cookie_refused() -> StatusView {
    StatusView { code: Code::Aborted, message: "Invalid magic cookie"@, details: None }
}

/// The failure of a registration under a name that is taken.
pub open spec fn duplicate_worker(id: Seq<char>) -> StatusView {
    StatusView {
        code: Code::Aborted,
        message: "Worker already registered: "@ + id,
        details: None,
    }
}

/// The record of a worker that has just registered with `request` at `now`.
pub open spec fn new_record(request: RegistrationRequestView, now: u64) -> WorkerRecordView {
    WorkerRecordView {
        worker_id: request.worker_id,
        supported_tasks: request.supported_tasks,
        assignments: Seq::empty(),
        cancelled: false,
        evicted: false,
        last_heartbeat: now,
    }
}

/// The registry after the worker named `id` was heard of at `now`; the
/// registry itself where no worker has that name.
pub open spec fn heard_from(records: Seq<WorkerRecordView>, id: Seq<char>, now: u64) -> Seq<
    WorkerRecordView,
> {
    if has_worker(records, id) {
        records.update(place_of(records, id), records[place_of(records, id)].heard(now))
    } else {
        records
    }
}

/// The registry after the queue of the worker named `id` was emptied; the
/// registry itself where no worker has that name.
pub open spec fn drained_of(records: Seq<WorkerRecordView>, id: Seq<char>) -> Seq<
    WorkerRecordView,
> {
    if has_worker(records, id) {
        records.update(place_of(records, id), records[place_of(records, id)].drained())
    } else {
        records
    }
}

/// Whether a worker has been silent for longer than `threshold` at `now`.
pub open spec fn is_stale(record: WorkerRecordView, now: u64, threshold: u64) -> bool {
    now - record.last_heartbeat > threshold
}

/// The registry after every session was told to stop.
pub open spec fn all_cancelled(records: Seq<WorkerRecordView>) -> Seq<WorkerRecordView> {
    Seq::new(records.len(), |i: int| records[i].cancel(false))
}

/// The registry after a heartbeat was queued for every worker whose queue
/// holds fewer than `limit` messages.
pub open spec fn all_pinged(records: Seq<WorkerRecordView>, limit: usize) -> Seq<
    WorkerRecordView,
> {
    Seq::new(
        records.len(),
        |i: int|
            if records[i].assignments.len() < limit {
                records[i].assign(SchedulerMessage::heartbeat())
            } else {
                records[i]
            },
    )
}

/// The number of workers whose queue holds fewer than `limit` messages.
pub open spec fn with_room(records: Seq<WorkerRecordView>, limit: usize) -> nat
    decreases records.len(),
{
    if records.len() == 0 {
        0
    } else if records.last().assignments.len() < limit {
        with_room(records.drop_last(), limit) + 1
    } else {
        with_room(records.drop_last(), limit)
    }
}

/// The registry after the sessions of the silent workers were told to stop.
pub open spec fn stale_evicted(records: Seq<WorkerRecordView>, now: u64, threshold: u64) -> Seq<
    WorkerRecordView,
> {
    Seq::new(
        records.len(),
        |i: int|
            if is_stale(records[i], now, threshold) {
                records[i].cancel(true)
            } else {
                records[i]
            },
    )
}

/// The names of the silent workers, in the order of the registry.
pub open spec fn stale_ids(records: Seq<WorkerRecordView>, now: u64, threshold: u64) -> Seq<
    Seq<char>,
>
    decreases records.len(),
{
    if records.len() == 0 {
        Seq::empty()
    } else if is_stale(records.last(), now, threshold) {
        stale_ids(records.drop_last(), now, threshold).push(records.last().worker_id)
    } else {
        stale_ids(records.drop_last(), now, threshold)
    }
}

/// Whether `after` and `outcome` are what the dispatch of `message` makes of
/// the fabric `before`.
///
/// Without a connected worker the dispatch fails for want of workers. Else
/// the balancer picks a place in the registry. Where the queue of the
/// worker there is full the dispatch fails for the moment. In both cases
/// the registry stays as it was. Else the message goes to the end of that
/// queue, and the answer is the one for the message.
pub open spec fn dispatched<B: LoadBalancer>(
    before: &GrpcSharedState<B>,
    after: &GrpcSharedState<B>,
    message: SchedulerMessageView,
    outcome: Result<ExecuteResponse, Status>,
) -> bool {
    let records = before.grpc_worker_channels@;
    let place = before.balancer.choice(records) as int;
    if records.len() == 0 {
        &&& outcome matches Err(status)
        &&& status@ == no_workers()
        &&& after.grpc_worker_channels@ == records
    } else if records[place].assignments.len() >= before.max_task_queue {
        &&& 0 <= place < records.len()
        &&& outcome matches Err(status)
        &&& status@ == dispatch_failed()
        &&& after.grpc_worker_channels@ == records
    } else {
        &&& 0 <= place < records.len()
        &&& outcome matches Ok(response)
        &&& response@ == response_for(message)
        &&& after.grpc_worker_channels@ == records.update(place, records[place].assign(message))
    }
}

/// What a session finds when it looks for work to send to its worker.
pub struct Outbound {
    /// The messages that waited, oldest first.
    pub messages: Vec<SchedulerMessage>,
    /// Whether the session was told to stop.
    pub cancelled: bool,
    /// Whether it was told so because its worker fell silent.
    pub evicted: bool,
}

/// The state of the fabric.
pub struct GrpcSharedState<B: LoadBalancer> {
    /// The connected workers.
    pub grpc_worker_channels: GrpcWorkerChannels,
    /// The policy that picks among them.
    pub balancer: B,
    /// How many messages may wait for one worker.
    pub max_task_queue: usize,
    /// The secret that a worker has to show to register.
    pub magic_cookie: String,
}

impl<B: LoadBalancer> GrpcSharedState<B> {
    /// The invariant of the fabric: that of its registry.
    pub open spec fn wf(&self) -> bool {
        self.grpc_worker_channels.wf()
    }

    /// Whether the fabric has the settings of `before`.
    pub open spec fn keeps(&self, before: &Self) -> bool {
        &&& self.max_task_queue == before.max_task_queue
        &&& self.magic_cookie@ == before.magic_cookie@
    }

    /// A fabric without workers. Where no limit is given, a hundred
    /// messages may wait for one worker.
    pub fn new(balancer: B, max_task_queue: Option<usize>) -> (r: Self)
        ensures
            r.wf(),
            r.grpc_worker_channels@.len() == 0,
            r.balancer == balancer,
            r.max_task_queue == (match max_task_queue {
                Some(limit) => limit,
                None => 100,
            }),
            r.magic_cookie@ == "SomeSecert"@,
    {
        let max_queue_size = match max_task_queue {
            None => 100,
            Some(queue_size) => queue_size,
        };
        GrpcSharedState {
            grpc_worker_channels: GrpcWorkerChannels::new(),
            balancer,
            max_task_queue: max_queue_size,
            magic_cookie: String::from_str("SomeSecert"),
        }
    }

    /// The fabric with another secret.
    pub fn with_magic_cookie(self, magic_cookie: String) -> (r: Self)
        ensures
            r == (GrpcSharedState { magic_cookie, ..self }),
    {
        let mut r = self;
        r.magic_cookie = magic_cookie;
        r
    }

    /// How many messages may wait for one worker.
    pub fn max_queue_size(&self) -> (r: usize)
        ensures
            r == self.max_task_queue,
    {
        self.max_task_queue
    }

    /// Tells every session to stop, and says how many were told.
    pub fn drop_workers(&mut self) -> (r: usize)
        requires
            old(self).wf(),
        ensures
            final(self).wf(),
            final(self).keeps(old(self)),
            final(self).balancer == old(self).balancer,
            final(self).grpc_worker_channels@ == all_cancelled(old(self).grpc_worker_channels@),
            r == old(self).grpc_worker_channels@.len(),
    {
        let ghost before = self.grpc_worker_channels@;
        let n = self.grpc_worker_channels.len();
        let mut i: usize = 0;
        while i < n
            invariant
                0 <= i <= n,
                n == before.len(),
                self.grpc_worker_channels.wf(),
                self.keeps(old(self)),
                self.balancer == old(self).balancer,
                self.grpc_worker_channels@.len() == n,
                forall|k: int|
                    0 <= k < n ==> #[trigger] self.grpc_worker_channels@[k] == (if k < i {
                        before[k].cancel(false)
                    } else {
                        before[k]
                    }),
            decreases n - i,
        {
            self.grpc_worker_channels.cancel(i, false);
            i = i + 1;
        }
        assert(self.grpc_worker_channels@ =~= all_cancelled(before));
        n
    }

    /// Dispatches `task` to the worker that the balancer picks: the message
    /// goes to the end of that worker's queue, and the answer names the
    /// task and the execution in the state `Pending`. The balancer picks
    /// among all connected workers, whatever tasks they have declared.
    /// Without a connected worker the dispatch fails for want of workers;
    /// where the queue of the picked worker is full it fails for the
    /// moment. A failed dispatch leaves every queue as it was.
    pub fn distribute_task(&mut self, task: SchedulerMessage) -> (r: Result<ExecuteResponse, Status>)
        requires
            old(self).wf(),
        ensures
            final(self).wf(),
            final(self).keeps(old(self)),
            dispatched(old(self), final(self), task@, r),
            final(self).balancer.follows(&old(self).balancer, old(self).grpc_worker_channels@),
            (r matches Err(status) && status@ == no_workers()) <==> old(
                self,
            ).grpc_worker_channels@.len() == 0,
    {
        let ghost records = self.grpc_worker_channels@;
        let ghost place = self.balancer.choice(records) as int;
        let key = match self.balancer.select_worker(&self.grpc_worker_channels) {
            Some(key) => key,
            None => {
                return Err(Status::aborted("No available workers"));
            },
        };
        let found = self.grpc_worker_channels.position(key.as_str());
        proof {
            assert(records[place].worker_id == key@);
            lemma_place_of(records, key@, place);
        }
        let i = found.unwrap();
        proof {
            lemma_place_of(records, key@, i as int);
            reveal_strlit("No available workers");
            reveal_strlit("Error while dispatching task");
        }
        if self.grpc_worker_channels.get(i).assignments.len() >= self.max_task_queue {
            let status = Status::unavailable("Error while dispatching task");
            assert(status@ != no_workers());
            return Err(status);
        }
        let response = respond(&task);
        self.grpc_worker_channels.assign(i, task);
        Ok(response)
    }

    /// Admits a worker. A request without the fabric's secret is refused,
    /// and so is one under a name that is taken; the registry is then left
    /// as it was. An admitted worker comes last in the registry, with an
    /// empty queue, heard of at `now`.
    pub fn register(&mut self, request: &RegistrationRequest, now: u64) -> (r: Result<(), Status>)
        requires
            old(self).wf(),
        ensures
            final(self).wf(),
            final(self).keeps(old(self)),
            final(self).balancer == old(self).balancer,
            ({
                let records = old(self).grpc_worker_channels@;
                if request@.magic_cookie.len() == 0 || request@.magic_cookie != old(
                    self,
                ).magic_cookie@ {
                    &&& r matches Err(status)
                    &&& status@ == cookie_refused()
                    &&& final(self).grpc_worker_channels@ == records
                } else if has_worker(records, request@.worker_id) {
                    &&& r matches Err(status)
                    &&& status@ == duplicate_worker(request@.worker_id)
                    &&& final(self).grpc_worker_channels@ == records
                } else {
                    &&& r is Ok
                    &&& final(self).grpc_worker_channels@ == records.push(
                        new_record(request@, now),
                    )
                }
            }),
    {
        if request.magic_cookie.as_str().unicode_len() == 0 || request.magic_cookie
            != self.magic_cookie {
            return Err(Status::aborted("Invalid magic cookie"));
        }
        if self.grpc_worker_channels.position(request.worker_id.as_str()).is_some() {
            let message = String::from_str("Worker already registered: ").concat(
                request.worker_id.as_str(),
            );
            return Err(Status { code: Code::Aborted, message, details: None });
        }
        let record = WorkerRecord {
            worker_id: request.worker_id.clone(),
            supported_tasks: request.supported_tasks.clone(),
            assignments: Vec::new(),
            cancelled: false,
            evicted: false,
            last_heartbeat: now,
        };
        proof {
            assert(strings_view(record.supported_tasks@) =~= request@.supported_tasks);
            assert(messages_view(record.assignments@) =~= Seq::<SchedulerMessageView>::empty());
        }
        self.grpc_worker_channels.insert(record);
        Ok(())
    }

    /// Notes that the worker named `worker_id` was heard of at `now`, and
    /// says whether there is such a worker.
    pub fn heartbeat(&mut self, worker_id: &str, now: u64) -> (r: bool)
        requires
            old(self).wf(),
        ensures
            final(self).wf(),
            final(self).keeps(old(self)),
            final(self).balancer == old(self).balancer,
            r == has_worker(old(self).grpc_worker_channels@, worker_id@),
            final(self).grpc_worker_channels@ == heard_from(
                old(self).grpc_worker_channels@,
                worker_id@,
                now,
            ),
    {
        match self.grpc_worker_channels.position(worker_id) {
            Some(i) => {
                proof {
                    lemma_place_of(self.grpc_worker_channels@, worker_id@, i as int);
                }
                self.grpc_worker_channels.touch(i, now);
                true
            },
            None => false,
        }
    }

    /// Takes the worker named `worker_id` out of the registry, with its
    /// queue and the time it was last heard of, and says whether there was
    /// such a worker. The others keep their order.
    pub fn remove(&mut self, worker_id: &str) -> (r: bool)
        requires
            old(self).wf(),
        ensures
            final(self).wf(),
            final(self).keeps(old(self)),
            final(self).balancer == old(self).balancer,
            r == has_worker(old(self).grpc_worker_channels@, worker_id@),
            !has_worker(final(self).grpc_worker_channels@, worker_id@),
            final(self).grpc_worker_channels@ == without(
                old(self).grpc_worker_channels@,
                worker_id@,
            ),
    {
        let ghost before = self.grpc_worker_channels@;
        match self.grpc_worker_channels.position(worker_id) {
            Some(i) => {
                proof {
                    lemma_place_of(before, worker_id@, i as int);
                }
                self.grpc_worker_channels.remove(i);
                proof {
                    let after = self.grpc_worker_channels@;
                    assert forall|k: int| 0 <= k < after.len() implies (#[trigger] after[k]).worker_id
                        != worker_id@ by {
                        let k0 = if k < i { k } else { k + 1 };
                        assert(after[k] == before[k0]);
                        if k0 < i {
                            assert(before[k0].worker_id != before[i as int].worker_id);
                        } else {
                            assert(before[i as int].worker_id != before[k0].worker_id);
                        }
                    }
                }
                true
            },
            None => false,
        }
    }

    /// What waits for the worker named `worker_id`: its queue, which is
    /// emptied, and whether its session was told to stop. For a worker
    /// that is not connected nothing waits and the session is to stop.
    pub fn take_outbound(&mut self, worker_id: &str) -> (r: Outbound)
        requires
            old(self).wf(),
        ensures
            final(self).wf(),
            final(self).keeps(old(self)),
            final(self).balancer == old(self).balancer,
            final(self).grpc_worker_channels@ == drained_of(
                old(self).grpc_worker_channels@,
                worker_id@,
            ),
            ({
                let records = old(self).grpc_worker_channels@;
                if has_worker(records, worker_id@) {
                    let record = records[place_of(records, worker_id@)];
                    &&& messages_view(r.messages@) == record.assignments
                    &&& r.cancelled == record.cancelled
                    &&& r.evicted == record.evicted
                } else {
                    &&& r.messages@.len() == 0
                    &&& r.cancelled
                    &&& !r.evicted
                }
            }),
    {
        match self.grpc_worker_channels.position(worker_id) {
            Some(i) => {
                proof {
                    lemma_place_of(self.grpc_worker_channels@, worker_id@, i as int);
                }
                let cancelled = self.grpc_worker_channels.get(i).cancelled;
                let evicted = self.grpc_worker_channels.get(i).evicted;
                let messages = self.grpc_worker_channels.drain(i);
                Outbound { messages, cancelled, evicted }
            },
            None => Outbound { messages: Vec::new(), cancelled: true, evicted: false },
        }
    }

    /// Queues a heartbeat for every connected worker whose queue is not
    /// full, and says for how many.
    pub fn heartbeat_all(&mut self) -> (r: usize)
        requires
            old(self).wf(),
        ensures
            final(self).wf(),
            final(self).keeps(old(self)),
            final(self).balancer == old(self).balancer,
            final(self).grpc_worker_channels@ == all_pinged(
                old(self).grpc_worker_channels@,
                old(self).max_task_queue,
            ),
            r == with_room(old(self).grpc_worker_channels@, old(self).max_task_queue),
    {
        let ghost before = self.grpc_worker_channels@;
        let n = self.grpc_worker_channels.len();
        let limit = self.max_task_queue;
        let mut sent: usize = 0;
        let mut i: usize = 0;
        assert(before.subrange(0, 0) =~= Seq::<WorkerRecordView>::empty());
        while i < n
            invariant
                0 <= i <= n,
                sent <= i,
                sent == with_room(before.subrange(0, i as int), limit),
                n == before.len(),
                limit == old(self).max_task_queue,
                self.grpc_worker_channels.wf(),
                self.keeps(old(self)),
                self.balancer == old(self).balancer,
                self.grpc_worker_channels@.len() == n,
                forall|k: int|
                    0 <= k < n ==> #[trigger] self.grpc_worker_channels@[k] == (if k < i {
                        all_pinged(before, limit)[k]
                    } else {
                        before[k]
                    }),
            decreases n - i,
        {
            proof {
                let next = before.subrange(0, i + 1);
                assert(next.drop_last() =~= before.subrange(0, i as int));
                assert(next.last() == before[i as int]);
            }
            if self.grpc_worker_channels.get(i).assignments.len() < limit {
                let ping = SchedulerMessage {
                    scheduler_message_type: Some(SchedulerMessageType::Heartbeat),
                };
                self.grpc_worker_channels.assign(i, ping);
                sent = sent + 1;
            }
            i = i + 1;
        }
        assert(before.subrange(0, n as int) =~= before);
        assert(self.grpc_worker_channels@ =~= all_pinged(before, limit));
        sent
    }

    /// Tells the session of every worker that has been silent for longer
    /// than `threshold` at `now` to stop, and marks it as evicted. Returns
    /// the names of those workers.
    pub fn evict_stale(&mut self, now: u64, threshold: u64) -> (r: Vec<String>)
        requires
            old(self).wf(),
        ensures
            final(self).wf(),
            final(self).keeps(old(self)),
            final(self).balancer == old(self).balancer,
            final(self).grpc_worker_channels@ == stale_evicted(
                old(self).grpc_worker_channels@,
                now,
                threshold,
            ),
            strings_view(r@) == stale_ids(old(self).grpc_worker_channels@, now, threshold),
    {
        let ghost before = self.grpc_worker_channels@;
        let n = self.grpc_worker_channels.len();
        let mut evicted: Vec<String> = Vec::new();
        let mut i: usize = 0;
        assert(before.subrange(0, 0) =~= Seq::<WorkerRecordView>::empty());
        assert(strings_view(evicted@) =~= stale_ids(before.subrange(0, 0), now, threshold));
        while i < n
            invariant
                0 <= i <= n,
                n == before.len(),
                self.grpc_worker_channels.wf(),
                self.keeps(old(self)),
                self.balancer == old(self).balancer,
                self.grpc_worker_channels@.len() == n,
                strings_view(evicted@) == stale_ids(before.subrange(0, i as int), now, threshold),
                forall|k: int|
                    0 <= k < n ==> #[trigger] self.grpc_worker_channels@[k] == (if k < i {
                        stale_evicted(before, now, threshold)[k]
                    } else {
                        before[k]
                    }),
            decreases n - i,
        {
            let last = self.grpc_worker_channels.get(i).last_heartbeat;
            let ghost head = before.subrange(0, i as int);
            let ghost next = before.subrange(0, i + 1);
            proof {
                assert(next.drop_last() =~= head);
                assert(next.last() == before[i as int]);
            }
            if now > last && now - last > threshold {
                let ghost names = strings_view(evicted@);
                evicted.push(self.grpc_worker_channels.get(i).worker_id.clone());
                assert(strings_view(evicted@) =~= names.push(before[i as int].worker_id));
                self.grpc_worker_channels.cancel(i, true);
            }
            i = i + 1;
        }
        assert(before.subrange(0, n as int) =~= before);
        assert(self.grpc_worker_channels@ =~= stale_evicted(before, now, threshold));
        evicted
    }
}

/// Cancelling, queueing heartbeats and evicting change what the registry
/// holds of each worker, and never which workers it holds.
pub proof fn lemma_sweeps_keep_workers(
    records: Seq<WorkerRecordView>,
    limit: usize,
    now: u64,
    threshold: u64,
)
    ensures
        worker_ids(all_cancelled(records)) == worker_ids(records),
        worker_ids(all_pinged(records, limit)) == worker_ids(records),
        worker_ids(stale_evicted(records, now, threshold)) == worker_ids(records),
{
    assert(worker_ids(all_cancelled(records)) =~= worker_ids(records));
    assert(worker_ids(all_pinged(records, limit)) =~= worker_ids(records));
    assert(worker_ids(stale_evicted(records, now, threshold)) =~= worker_ids(records));
}

/// A dispatch, whether it succeeds or fails, never changes which workers
/// the registry holds, and it changes the queue of one worker at most.
pub proof fn lemma_dispatch_keeps_workers<B: LoadBalancer>(
    before: &GrpcSharedState<B>,
    after: &GrpcSharedState<B>,
    message: SchedulerMessageView,
    outcome: Result<ExecuteResponse, Status>,
)
    requires
        before.wf(),
        dispatched(before, after, message, outcome),
    ensures
        worker_ids(after.grpc_worker_channels@) == worker_ids(before.grpc_worker_channels@),
        after.grpc_worker_channels@.len() == before.grpc_worker_channels@.len(),
        forall|i: int, j: int|
            0 <= i < j < before.grpc_worker_channels@.len() ==> #[trigger] after.grpc_worker_channels@[i]
                == before.grpc_worker_channels@[i] || #[trigger] after.grpc_worker_channels@[j]
                == before.grpc_worker_channels@[j],
{
    let records = before.grpc_worker_channels@;
    let place = before.balancer.choice(records) as int;
    if records.len() > 0 && records[place].assignments.len() < before.max_task_queue {
        lemma_update_keeps_ids(records, place, records[place].assign(message));
    }
}

/// The answer to the dispatch of `message`.
fn respond(message: &SchedulerMessage) -> (r: ExecuteResponse)
    ensures
        r@ == response_for(message@),
{
    match &message.scheduler_message_type {
        Some(SchedulerMessageType::AssignTask(request)) => {
            let task_id = match &request.task {
                Some(task) => task.id.clone(),
                None => String::from_str("UnknownTaskId"),
            };
            ExecuteResponse {
                task_id,
                execution_id: request.execution_id.clone(),
                state: TaskState::Pending,
            }
        },
        _ => ExecuteResponse {
            task_id: String::from_str("UnknownTaskId"),
            execution_id: String::from_str("UnknownExecutionId"),
            state: TaskState::Pending,
        },
    }
}

} // verus!
