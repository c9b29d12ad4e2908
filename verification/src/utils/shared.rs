//! The registry of connected remote workers.

use crate::internal::scheduler::SchedulerMessage;
use crate::internal::scheduler::SchedulerMessageView;
use crate::utils::text::strings_view;
use vstd::prelude::*;

verus! {

/// The views of the messages in `v`, in order.
pub open spec fn messages_view(v: Seq<SchedulerMessage>) -> Seq<SchedulerMessageView> {
    Seq::new(v.len(), |i: int| v[i]@)
}

/// What the scheduler keeps of one connected worker.
pub struct WorkerRecord {
    /// The worker's name, unique in the registry.
    pub worker_id: String,
    /// The task names that the worker declared when it registered.
    pub supported_tasks: Vec<String>,
    /// The messages waiting to go out to the worker, oldest first.
    pub assignments: Vec<SchedulerMessage>,
    /// Whether the worker's session has been told to stop.
    pub cancelled: bool,
    /// Whether it was told to stop because the worker fell silent.
    pub evicted: bool,
    /// When the worker was last heard of.
    pub last_heartbeat: u64,
}

/// What a `WorkerRecord` holds.
pub struct WorkerRecordView {
    pub worker_id: Seq<char>,
    pub supported_tasks: Seq<Seq<char>>,
    pub assignments: Seq<SchedulerMessageView>,
    pub cancelled: bool,
    pub evicted: bool,
    pub last_heartbeat: u64,
}

impl View for WorkerRecord {
    type V = WorkerRecordView;

    open spec fn view(&self) -> WorkerRecordView {
        WorkerRecordView {
            worker_id: self.worker_id@,
            supported_tasks: strings_view(self.supported_tasks@),
            assignments: messages_view(self.assignments@),
            cancelled: self.cancelled,
            evicted: self.evicted,
            last_heartbeat: self.last_heartbeat,
        }
    }
}

impl WorkerRecordView {
    /// The record with `message` added at the end of its queue.
    pub open spec fn assign(self, message: SchedulerMessageView) -> WorkerRecordView {
        WorkerRecordView { assignments: self.assignments.push(message), ..self }
    }

    /// The record with an empty queue.
    pub open spec fn drained(self) -> WorkerRecordView {
        WorkerRecordView { assignments: Seq::empty(), ..self }
    }

    /// The record told to stop; `evicted` says whether for silence.
    pub open spec fn cancel(self, evicted: bool) -> WorkerRecordView {
        WorkerRecordView { cancelled: true, evicted: self.evicted || evicted, ..self }
    }

    /// The record last heard of at `now`.
    pub open spec fn heard(self, now: u64) -> WorkerRecordView {
        WorkerRecordView { last_heartbeat: now, ..self }
    }
}

/// Whether a worker named `id` is among `records`.
pub open spec fn has_worker(records: Seq<WorkerRecordView>, id: Seq<char>) -> bool {
    exists|i: int| 0 <= i < records.len() && (#[trigger] records[i]).worker_id == id
}

/// The place of the worker named `id` among `records`.
pub open spec fn place_of(records: Seq<WorkerRecordView>, id: Seq<char>) -> int {
    choose|i: int| 0 <= i < records.len() && (#[trigger] records[i]).worker_id == id
}

/// `records` without the worker named `id`.
pub open spec fn without(records: Seq<WorkerRecordView>, id: Seq<char>) -> Seq<WorkerRecordView> {
    if has_worker(records, id) {
        records.remove(place_of(records, id))
    } else {
        records
    }
}

/// Whether no two of `records` have the same name.
pub open spec fn distinct_ids(records: Seq<WorkerRecordView>) -> bool {
    forall|i: int, j: int|
        0 <= i < j < records.len() ==> (#[trigger] records[i]).worker_id != (
        #[trigger] records[j]).worker_id
}

/// The names of `records`, in order.
pub open spec fn worker_ids(records: Seq<WorkerRecordView>) -> Seq<Seq<char>> {
    Seq::new(records.len(), |i: int| records[i].worker_id)
}

/// The connected workers in the order in which they registered. No two have
/// the same name.
pub struct GrpcWorkerChannels {
    records: Vec<WorkerRecord>,
}

impl View for GrpcWorkerChannels {
    type V = Seq<WorkerRecordView>;

    closed spec fn view(&self) -> Seq<WorkerRecordView> {
        Seq::new(self.records@.len(), |i: int| self.records@[i]@)
    }
}

impl GrpcWorkerChannels {
    /// The invariant of the registry: names are unique.
    pub open spec fn wf(&self) -> bool {
        distinct_ids(self@)
    }

    /// A registry without workers.
    pub fn new() -> (r: GrpcWorkerChannels)
        ensures
            r@ == Seq::<WorkerRecordView>::empty(),
            r.wf(),
    {
        let r = GrpcWorkerChannels { records: Vec::new() };
        assert(r@ =~= Seq::<WorkerRecordView>::empty());
        r
    }

    /// The number of connected workers.
    pub fn len(&self) -> (r: usize)
        ensures
            r == self@.len(),
    {
        self.records.len()
    }

    /// The names of the connected workers, in the order of the registry.
    pub fn keys(&self) -> (r: Vec<String>)
        ensures
            strings_view(r@) == worker_ids(self@),
    {
        let mut out: Vec<String> = Vec::new();
        let mut i: usize = 0;
        while i < self.records.len()
            invariant
                0 <= i <= self.records@.len(),
                out@.len() == i,
                forall|k: int| 0 <= k < i ==> (#[trigger] out@[k])@ == self.records@[k].worker_id@,
            decreases self.records@.len() - i,
        {
            out.push(self.records[i].worker_id.clone());
            i = i + 1;
        }
        assert(strings_view(out@) =~= worker_ids(self@));
        out
    }

    /// Where the worker named `id` stands in the registry.
    pub fn position(&self, id: &str) -> (r: Option<usize>)
        ensures
            match r {
                Some(i) => i < self@.len() && self@[i as int].worker_id == id@,
                None => !has_worker(self@, id@),
            },
    {
        let wanted = id.to_owned();
        let mut i: usize = 0;
        while i < self.records.len()
            invariant
                0 <= i <= self.records@.len(),
                wanted@ == id@,
                forall|k: int| 0 <= k < i ==> (#[trigger] self@[k]).worker_id != id@,
            decreases self.records@.len() - i,
        {
            if self.records[i].worker_id == wanted {
                return Some(i);
            }
            assert(self@[i as int].worker_id != id@);
            i = i + 1;
        }
        None
    }

    /// The record at place `i`.
    pub fn get(&self, i: usize) -> (r: &WorkerRecord)
        requires
            i < self@.len(),
        ensures
            r@ == self@[i as int],
    {
        &self.records[i]
    }

    /// Adds `record` at the end of the registry.
    pub fn insert(&mut self, record: WorkerRecord)
        requires
            old(self).wf(),
            !has_worker(old(self)@, record.worker_id@),
        ensures
            final(self).wf(),
            final(self)@ == old(self)@.push(record@),
    {
        let ghost before = self@;
        self.records.push(record);
        assert(self@ =~= before.push(record@));
        assert forall|i: int, j: int| 0 <= i < j < self@.len() implies (#[trigger] self@[i]).worker_id
            != (#[trigger] self@[j]).worker_id by {
            if j == before.len() {
                assert(before[i].worker_id != record.worker_id@);
            } else {
                assert(before[i].worker_id != before[j].worker_id);
            }
        }
    }

    /// Takes the record at place `i` out of the registry; the others keep
    /// their order.
    pub fn remove(&mut self, i: usize) -> (r: WorkerRecord)
        requires
            old(self).wf(),
            i < old(self)@.len(),
        ensures
            final(self).wf(),
            final(self)@ == old(self)@.remove(i as int),
            r@ == old(self)@[i as int],
    {
        let ghost before = self@;
        let r = self.records.remove(i);
        assert(self@ =~= before.remove(i as int));
        assert forall|a: int, b: int| 0 <= a < b < self@.len() implies (#[trigger] self@[a]).worker_id
            != (#[trigger] self@[b]).worker_id by {
            let a0 = if a < i { a } else { a + 1 };
            let b0 = if b < i { b } else { b + 1 };
            assert(self@[a] == before[a0]);
            assert(self@[b] == before[b0]);
            assert(before[a0].worker_id != before[b0].worker_id);
        }
        r
    }

    /// Puts `message` at the end of the queue of the worker at place `i`.
    pub fn assign(&mut self, i: usize, message: SchedulerMessage)
        requires
            old(self).wf(),
            i < old(self)@.len(),
        ensures
            final(self).wf(),
            final(self)@ == old(self)@.update(i as int, old(self)@[i as int].assign(message@)),
    {
        let ghost before = self@;
        let mut record = self.records.remove(i);
        let ghost queue = record.assignments@;
        record.assignments.push(message);
        assert(messages_view(record.assignments@) =~= messages_view(queue).push(message@));
        self.records.insert(i, record);
        assert(self@ =~= before.update(i as int, before[i as int].assign(message@)));
        proof {
            lemma_update_keeps_ids(before, i as int, before[i as int].assign(message@));
        }
    }

    /// Empties the queue of the worker at place `i` and hands out what was
    /// in it, oldest first.
    pub fn drain(&mut self, i: usize) -> (r: Vec<SchedulerMessage>)
        requires
            old(self).wf(),
            i < old(self)@.len(),
        ensures
            final(self).wf(),
            final(self)@ == old(self)@.update(i as int, old(self)@[i as int].drained()),
            messages_view(r@) == old(self)@[i as int].assignments,
    {
        let ghost before = self@;
        let record = self.records.remove(i);
        let WorkerRecord {
            worker_id,
            supported_tasks,
            assignments,
            cancelled,
            evicted,
            last_heartbeat,
        } = record;
        let emptied = WorkerRecord {
            worker_id,
            supported_tasks,
            assignments: Vec::new(),
            cancelled,
            evicted,
            last_heartbeat,
        };
        assert(messages_view(emptied.assignments@) =~= Seq::<SchedulerMessageView>::empty());
        self.records.insert(i, emptied);
        assert(self@ =~= before.update(i as int, before[i as int].drained()));
        proof {
            lemma_update_keeps_ids(before, i as int, before[i as int].drained());
        }
        assignments
    }

    /// Tells the session of the worker at place `i` to stop.
    pub fn cancel(&mut self, i: usize, evicted: bool)
        requires
            old(self).wf(),
            i < old(self)@.len(),
        ensures
            final(self).wf(),
            final(self)@ == old(self)@.update(i as int, old(self)@[i as int].cancel(evicted)),
    {
        let ghost before = self@;
        let mut record = self.records.remove(i);
        record.cancelled = true;
        record.evicted = record.evicted || evicted;
        self.records.insert(i, record);
        assert(self@ =~= before.update(i as int, before[i as int].cancel(evicted)));
        proof {
            lemma_update_keeps_ids(before, i as int, before[i as int].cancel(evicted));
        }
    }

    /// Notes that the worker at place `i` was heard of at `now`.
    pub fn touch(&mut self, i: usize, now: u64)
        requires
            old(self).wf(),
            i < old(self)@.len(),
        ensures
            final(self).wf(),
            final(self)@ == old(self)@.update(i as int, old(self)@[i as int].heard(now)),
    {
        let ghost before = self@;
        let mut record = self.records.remove(i);
        record.last_heartbeat = now;
        self.records.insert(i, record);
        assert(self@ =~= before.update(i as int, before[i as int].heard(now)));
        proof {
            lemma_update_keeps_ids(before, i as int, before[i as int].heard(now));
        }
    }
}

/// Among records with unique names, a worker stands at one place only.
pub proof fn lemma_place_of(records: Seq<WorkerRecordView>, id: Seq<char>, i: int)
    requires
        distinct_ids(records),
        0 <= i < records.len(),
        records[i].worker_id == id,
    ensures
        has_worker(records, id),
        place_of(records, id) == i,
{
    let p = place_of(records, id);
    if p < i {
        assert(records[p].worker_id != records[i].worker_id);
    } else if i < p {
        assert(records[i].worker_id != records[p].worker_id);
    }
}

/// Replacing a record by one of the same name keeps the names unique.
pub proof fn lemma_update_keeps_ids(records: Seq<WorkerRecordView>, i: int, record: WorkerRecordView)
    requires
        distinct_ids(records),
        0 <= i < records.len(),
        record.worker_id == records[i].worker_id,
    ensures
        distinct_ids(records.update(i, record)),
        worker_ids(records.update(i, record)) == worker_ids(records),
{
    let after = records.update(i, record);
    assert forall|a: int, b: int| 0 <= a < b < after.len() implies (#[trigger] after[a]).worker_id
        != (#[trigger] after[b]).worker_id by {
        assert(records[a].worker_id != records[b].worker_id);
    }
    assert(worker_ids(after) =~= worker_ids(records));
}

/// Registries with the same names in the same order have the same workers.
pub proof fn lemma_same_ids(
    records: Seq<WorkerRecordView>,
    others: Seq<WorkerRecordView>,
    id: Seq<char>,
)
    requires
        worker_ids(records) == worker_ids(others),
    ensures
        has_worker(records, id) == has_worker(others, id),
        distinct_ids(records) == distinct_ids(others),
{
    assert(records.len() == worker_ids(records).len());
    assert(others.len() == worker_ids(others).len());
    assert forall|i: int| 0 <= i < records.len() implies (#[trigger] records[i]).worker_id
        == others[i].worker_id by {
        assert(worker_ids(records)[i] == worker_ids(others)[i]);
    }
    if has_worker(records, id) {
        let i = place_of(records, id);
        assert(others[i].worker_id == id);
    }
    if has_worker(others, id) {
        let i = place_of(others, id);
        assert(records[i].worker_id == id);
    }
    if distinct_ids(records) {
        assert forall|i: int, j: int| 0 <= i < j < others.len() implies (
        #[trigger] others[i]).worker_id != (#[trigger] others[j]).worker_id by {
            assert(records[i].worker_id != records[j].worker_id);
        }
    }
    if distinct_ids(others) {
        assert forall|i: int, j: int| 0 <= i < j < records.len() implies (
        #[trigger] records[i]).worker_id != (#[trigger] records[j]).worker_id by {
            assert(others[i].worker_id != others[j].worker_id);
        }
    }
}

/// The workers of a registry without the worker named `id` are the others.
pub proof fn lemma_without(records: Seq<WorkerRecordView>, id: Seq<char>, other: Seq<char>)
    requires
        distinct_ids(records),
    ensures
        distinct_ids(without(records, id)),
        has_worker(without(records, id), other) <==> has_worker(records, other) && other != id,
{
    let after = without(records, id);
    if has_worker(records, id) {
        let p = place_of(records, id);
        assert forall|a: int, b: int| 0 <= a < b < after.len() implies (
        #[trigger] after[a]).worker_id != (#[trigger] after[b]).worker_id by {
            let a0 = if a < p { a } else { a + 1 };
            let b0 = if b < p { b } else { b + 1 };
            assert(after[a] == records[a0]);
            assert(after[b] == records[b0]);
            assert(records[a0].worker_id != records[b0].worker_id);
        }
        if has_worker(after, other) {
            let k = place_of(after, other);
            let k0 = if k < p { k } else { k + 1 };
            assert(after[k] == records[k0]);
            assert(records[k0].worker_id == other);
            if k0 < p {
                assert(records[k0].worker_id != records[p].worker_id);
            } else {
                assert(records[p].worker_id != records[k0].worker_id);
            }
        }
        if has_worker(records, other) && other != id {
            let k0 = place_of(records, other);
            let k = if k0 < p { k0 } else { k0 - 1 };
            assert(after[k] == records[k0]);
            assert(after[k].worker_id == other);
        }
    }
}

/// The workers of a registry with one more record are the old ones and the
/// new one.
pub proof fn lemma_push(records: Seq<WorkerRecordView>, record: WorkerRecordView, other: Seq<char>)
    ensures
        has_worker(records.push(record), other) <==> has_worker(records, other) || other
            == record.worker_id,
        distinct_ids(records) && !has_worker(records, record.worker_id) ==> distinct_ids(
            records.push(record),
        ),
{
    let after = records.push(record);
    if has_worker(after, other) {
        let k = place_of(after, other);
        if k < records.len() {
            assert(records[k].worker_id == other);
        }
    }
    if has_worker(records, other) {
        let k = place_of(records, other);
        assert(after[k].worker_id == other);
    }
    if other == record.worker_id {
        assert(after[records.len() as int].worker_id == other);
    }
    if distinct_ids(records) && !has_worker(records, record.worker_id) {
        assert forall|i: int, j: int| 0 <= i < j < after.len() implies (
        #[trigger] after[i]).worker_id != (#[trigger] after[j]).worker_id by {
            if j == records.len() {
                assert(records[i].worker_id != record.worker_id);
            } else {
                assert(records[i].worker_id != records[j].worker_id);
            }
        }
    }
}

/// What happens to the queue of one session.
pub enum QueueEvent {
    /// The scheduler puts a message at the end of the queue.
    Assign(SchedulerMessageView),
    /// The session empties the queue and sends what was in it, oldest
    /// first.
    Drain,
}

/// The queue that `events` leave behind, starting from `queue`.
pub open spec fn queue_after(queue: Seq<SchedulerMessageView>, events: Seq<QueueEvent>) -> Seq<
    SchedulerMessageView,
>
    decreases events.len(),
{
    if events.len() == 0 {
        queue
    } else {
        match events.last() {
            QueueEvent::Assign(message) => queue_after(queue, events.drop_last()).push(message),
            QueueEvent::Drain => Seq::empty(),
        }
    }
}

/// What the worker has been sent in the course of `events`, starting from
/// `queue`, in the order in which it was sent.
pub open spec fn sent_during(queue: Seq<SchedulerMessageView>, events: Seq<QueueEvent>) -> Seq<
    SchedulerMessageView,
>
    decreases events.len(),
{
    if events.len() == 0 {
        Seq::empty()
    } else {
        match events.last() {
            QueueEvent::Assign(_) => sent_during(queue, events.drop_last()),
            QueueEvent::Drain => sent_during(queue, events.drop_last()) + queue_after(
                queue,
                events.drop_last(),
            ),
        }
    }
}

/// The messages that `events` assign, in the order in which they do.
pub open spec fn assigned_by(events: Seq<QueueEvent>) -> Seq<SchedulerMessageView>
    decreases events.len(),
{
    if events.len() == 0 {
        Seq::empty()
    } else {
        match events.last() {
            QueueEvent::Assign(message) => assigned_by(events.drop_last()).push(message),
            QueueEvent::Drain => assigned_by(events.drop_last()),
        }
    }
}

/// However assignments and sends take turns within one session, the worker
/// is sent the messages in the order in which they were assigned: what was
/// sent, followed by what still waits, is what waited at first followed by
/// what was assigned since. Once the queue was emptied, everything assigned
/// before that was sent.
pub proof fn lemma_assignments_keep_their_order(
    queue: Seq<SchedulerMessageView>,
    events: Seq<QueueEvent>,
)
    ensures
        sent_during(queue, events) + queue_after(queue, events) == queue + assigned_by(events),
        events.len() > 0 && events.last() is Drain ==> sent_during(queue, events) == queue
            + assigned_by(events),
    decreases events.len(),
{
    if events.len() == 0 {
        assert(sent_during(queue, events) + queue_after(queue, events) =~= queue + assigned_by(
            events,
        ));
    } else {
        lemma_assignments_keep_their_order(queue, events.drop_last());
        let sent = sent_during(queue, events.drop_last());
        let waits = queue_after(queue, events.drop_last());
        let assigned = assigned_by(events.drop_last());
        assert(sent + waits == queue + assigned);
        match events.last() {
            QueueEvent::Assign(message) => {
                assert(sent + waits.push(message) =~= (sent + waits).push(message));
                assert(queue + assigned.push(message) =~= (queue + assigned).push(message));
            },
            QueueEvent::Drain => {
                assert((sent + waits) + Seq::<SchedulerMessageView>::empty() =~= sent + waits);
            },
        }
    }
}

} // verus!
