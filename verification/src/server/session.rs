//! The session of one remote worker: the stream between it and the
//! scheduler, from the moment it opens to the moment it is closed.

use crate::engine::grpc_executor::cookie_refused;
use crate::engine::grpc_executor::drained_of;
use crate::engine::grpc_executor::duplicate_worker;
use crate::engine::grpc_executor::GrpcSharedState;
use crate::engine::grpc_executor::heard_from;
use crate::engine::grpc_executor::new_record;
use crate::engine::load_balancer::LoadBalancer;
use crate::engine::worker_pool::text_option_view;
use crate::internal::scheduler::Ack;
use crate::internal::scheduler::AckView;
use crate::internal::scheduler::SchedulerMessage;
use crate::internal::scheduler::SchedulerMessageType;
use crate::internal::scheduler::SchedulerMessageTypeView;
use crate::internal::scheduler::SchedulerMessageView;
use crate::internal::scheduler::TaskCompletion;
use crate::internal::scheduler::TaskCompletionView;
use crate::internal::scheduler::WorkerChannelStatus;
use crate::internal::scheduler::WorkerMessage;
use crate::internal::scheduler::WorkerMessageType;
use crate::internal::scheduler::WorkerMessageTypeView;
use crate::internal::scheduler::WorkerMessageView;
use crate::utils::shared::distinct_ids;
use crate::utils::shared::has_worker;
use crate::utils::shared::lemma_push;
use crate::utils::shared::lemma_same_ids;
use crate::utils::shared::lemma_update_keeps_ids;
use crate::utils::shared::lemma_without;
use crate::utils::shared::messages_view;
use crate::utils::shared::place_of;
use crate::utils::shared::without;
use crate::utils::shared::worker_ids;
use crate::utils::shared::WorkerRecordView;
use crate::utils::status::Code;
use crate::utils::status::Status;
use crate::utils::status::StatusView;
use vstd::prelude::*;
use vstd::string::StringExecFns;

verus! {

/// Where a session stands.
#[derive(Clone, Copy, Debug, PartialEq, Eq, Structural)]
pub enum SessionState {
    /// The stream is open and the worker has not registered yet.
    New,
    /// The worker has registered and its acknowledgement is on the way.
    Registered,
    /// The worker is registered and messages go both ways.
    Active,
    /// The stream is closed.
    Closed,
    /// The stream is closed because the worker fell silent.
    Evicted,
}

/// One session.
#[derive(Debug, PartialEq, Eq)]
pub struct Session {
    pub state: SessionState,
    pub registered_worker_id: Option<String>,
}

/// What the scheduler does in answer to something that happened on a
/// session.
#[derive(Debug, PartialEq, Eq)]
pub enum SessionAction {
    /// Nothing.
    Nothing,
    /// Send this message to the worker.
    Reply(SchedulerMessage),
    /// Hand this completion on to whoever observes completions.
    Completed(TaskCompletion),
    /// Send this failure to the worker and close the stream.
    Reject(Status),
}

/// What a `SessionAction` holds.
pub enum SessionActionView {
    Nothing,
    Reply(SchedulerMessageView),
    Completed(TaskCompletionView),
    Reject(StatusView),
}

impl View for SessionAction {
    type V = SessionActionView;

    open spec fn view(&self) -> SessionActionView {
        match self {
            SessionAction::Nothing => SessionActionView::Nothing,
            SessionAction::Reply(m) => SessionActionView::Reply(m@),
            SessionAction::Completed(c) => SessionActionView::Completed(c@),
            SessionAction::Reject(s) => SessionActionView::Reject(s@),
        }
    }
}

/// What a session sends to its worker in one go.
pub struct Forward {
    /// The messages to send, in this order.
    pub messages: Vec<SchedulerMessage>,
    /// The failure to send after them, with which the stream is closed.
    pub abort: Option<Status>,
}

/// The acknowledgement of a registration.
pub open spec fn connected_ack() -> SchedulerMessageView {
    SchedulerMessageView {
        scheduler_message_type: Some(
            SchedulerMessageTypeView::Ack(
                AckView { message: "worker connected"@, status: WorkerChannelStatus::Ready },
            ),
        ),
    }
}

/// The failure for a message that says nothing the scheduler knows.
pub open spec fn unknown_message() -> StatusView {
    StatusView {
        code: Code::Aborted,
        message: "Unknown worker message or missing data"@,
        details: None,
    }
}

/// The failure for a second registration on one session.
pub open spec fn repeated_registration() -> StatusView {
    StatusView { code: Code::Aborted, message: "Worker is already registered"@, details: None }
}

/// The failure with which a cancelled session is closed.
pub open spec fn aborting() -> StatusView {
    StatusView { code: Code::Aborted, message: "Aborting channel"@, details: None }
}

impl Session {
    /// The name under which the session's worker registered.
    pub open spec fn worker(&self) -> Option<Seq<char>> {
        text_option_view(self.registered_worker_id)
    }

    /// Whether the session's worker is registered and the stream open.
    pub open spec fn is_live(&self) -> bool {
        self.state == SessionState::Registered || self.state == SessionState::Active
    }

    /// Whether the session has ended.
    pub open spec fn is_over(&self) -> bool {
        self.state == SessionState::Closed || self.state == SessionState::Evicted
    }

    /// The invariant of a session: a registered worker has a name, and an
    /// unregistered one has none.
    pub open spec fn wf(&self) -> bool {
        &&& self.is_live() ==> self.worker() is Some
        &&& self.state == SessionState::New ==> self.worker() is None
    }

    /// The session of a stream that has just been opened.
    pub fn new() -> (r: Session)
        ensures
            r.state == SessionState::New,
            r.worker() is None,
            r.wf(),
    {
        Session { state: SessionState::New, registered_worker_id: None }
    }

    /// The registry without the session's worker, where it has one.
    pub open spec fn released(&self, records: Seq<WorkerRecordView>) -> Seq<WorkerRecordView> {
        match self.worker() {
            Some(id) => without(records, id),
            None => records,
        }
    }
}

/// Whether a session and the registry go from `before` and `records` to
/// `after` and `after_records`, with `action` as the answer, when `message`
/// arrives at `now` and the fabric's secret is `cookie`.
///
/// A session that has ended ignores the message. A message without a
/// content that the scheduler knows closes the session with a failure. A
/// registration on a session with a registered worker closes it with a
/// failure; on a new session it is refused for a missing or wrong secret,
/// then for a name that is taken, and else admits the worker, who comes
/// last in the registry, and is answered with an acknowledgement. A
/// heartbeat notes that the registered worker was heard of. A completion is
/// handed on. Whenever a session is closed, its worker leaves the registry.
pub open spec fn communicated(
    before: &Session,
    after: &Session,
    records: Seq<WorkerRecordView>,
    after_records: Seq<WorkerRecordView>,
    cookie: Seq<char>,
    message: WorkerMessageView,
    now: u64,
    action: SessionActionView,
) -> bool {
    if before.is_over() {
        &&& action == SessionActionView::Nothing
        &&& *after == *before
        &&& after_records == records
    } else {
        match message.worker_message_type {
            None => {
                &&& action == SessionActionView::Reject(unknown_message())
                &&& after.state == SessionState::Closed
                &&& after.worker() == before.worker()
                &&& after_records == before.released(records)
            },
            Some(WorkerMessageTypeView::Registration(request)) => {
                if before.is_live() {
                    &&& action == SessionActionView::Reject(repeated_registration())
                    &&& after.state == SessionState::Closed
                    &&& after.worker() == before.worker()
                    &&& after_records == before.released(records)
                } else if request.magic_cookie.len() == 0 || request.magic_cookie != cookie {
                    &&& action == SessionActionView::Reject(cookie_refused())
                    &&& after.state == SessionState::Closed
                    &&& after.worker() == before.worker()
                    &&& after_records == records
                } else if has_worker(records, request.worker_id) {
                    &&& action == SessionActionView::Reject(duplicate_worker(request.worker_id))
                    &&& after.state == SessionState::Closed
                    &&& after.worker() == before.worker()
                    &&& after_records == records
                } else {
                    &&& action == SessionActionView::Reply(connected_ack())
                    &&& after.state == SessionState::Registered
                    &&& after.worker() == Some(request.worker_id)
                    &&& after_records == records.push(new_record(request, now))
                }
            },
            Some(WorkerMessageTypeView::Heartbeat(_)) => {
                &&& action == SessionActionView::Nothing
                &&& after.worker() == before.worker()
                &&& if before.is_live() {
                    &&& after.state == SessionState::Active
                    &&& after_records == heard_from(records, before.worker()->0, now)
                } else {
                    &&& after.state == SessionState::New
                    &&& after_records == records
                }
            },
            Some(WorkerMessageTypeView::Completion(completion)) => {
                &&& action == SessionActionView::Completed(completion)
                &&& after.worker() == before.worker()
                &&& after.state == (if before.is_live() {
                    SessionState::Active
                } else {
                    SessionState::New
                })
                &&& after_records == records
            },
        }
    }
}

/// Whether a session and the registry go from `before` and `records` to
/// `after` and `after_records` when the session looks what waits for its
/// worker, and `messages` and `abort` are what it then sends.
///
/// A session without a registered worker sends nothing. One whose worker
/// is registered sends the messages that waited, oldest first, and its
/// queue is empty afterwards. Where the session was told to stop, it then
/// sends the failure that closes the stream, its worker leaves the
/// registry, and it ends as evicted if it was told to stop for silence and
/// as closed if not. A session whose worker has left the registry is closed
/// in the same way.
pub open spec fn forwarded(
    before: &Session,
    after: &Session,
    records: Seq<WorkerRecordView>,
    after_records: Seq<WorkerRecordView>,
    messages: Seq<SchedulerMessageView>,
    abort: Option<StatusView>,
) -> bool {
    &&& after.worker() == before.worker()
    &&& if !before.is_live() {
        &&& messages.len() == 0
        &&& abort is None
        &&& after.state == before.state
        &&& after_records == records
    } else {
        let id = before.worker()->0;
        if has_worker(records, id) {
            let record = records[place_of(records, id)];
            &&& messages == record.assignments
            &&& if record.cancelled {
                &&& abort == Some(aborting())
                &&& after.state == (if record.evicted {
                    SessionState::Evicted
                } else {
                    SessionState::Closed
                })
                &&& after_records == without(records, id)
            } else {
                &&& abort is None
                &&& after.state == SessionState::Active
                &&& after_records == drained_of(records, id)
            }
        } else {
            &&& messages.len() == 0
            &&& abort == Some(aborting())
            &&& after.state == SessionState::Closed
            &&& after_records == records
        }
    }
}

/// Whether a session and the registry go from `before` and `records` to
/// `after` and `after_records` when the stream of the session is gone: a
/// session that has ended stays as it is, any other is closed and its
/// worker leaves the registry.
pub open spec fn closed(
    before: &Session,
    after: &Session,
    records: Seq<WorkerRecordView>,
    after_records: Seq<WorkerRecordView>,
) -> bool {
    &&& after.worker() == before.worker()
    &&& if before.is_over() {
        after.state == before.state && after_records == records
    } else {
        after.state == SessionState::Closed && after_records == before.released(records)
    }
}

/// Whether the registry holds the workers of the live sessions and no
/// others: every session whose stream is open and whose worker is
/// registered has its worker in the registry, no two of them have the same
/// worker, and every worker in the registry is the worker of one of them.
pub open spec fn registry_matches(sessions: Seq<Session>, records: Seq<WorkerRecordView>) -> bool {
    &&& distinct_ids(records)
    &&& forall|i: int| 0 <= i < sessions.len() ==> (#[trigger] sessions[i]).wf()
    &&& forall|i: int|
        0 <= i < sessions.len() && (#[trigger] sessions[i]).is_live() ==> has_worker(
            records,
            sessions[i].worker()->0,
        )
    &&& forall|i: int, j: int|
        0 <= i < j < sessions.len() && (#[trigger] sessions[i]).is_live() && (
        #[trigger] sessions[j]).is_live() ==> sessions[i].worker() != sessions[j].worker()
    &&& forall|id: Seq<char>| #[trigger]
        has_worker(records, id) ==> is_served(sessions, id)
}

/// Whether a live session among `sessions` has the worker named `id`.
pub open spec fn is_served(sessions: Seq<Session>, id: Seq<char>) -> bool {
    exists|i: int|
        0 <= i < sessions.len() && (#[trigger] sessions[i]).is_live() && sessions[i].worker()
            == Some(id)
}

/// The side of the scheduler that the workers talk to.
pub struct SchedulerServer<B: LoadBalancer> {
    pub shared_state: GrpcSharedState<B>,
}

impl<B: LoadBalancer> SchedulerServer<B> {
    /// The invariant of the server: that of the fabric.
    pub open spec fn wf(&self) -> bool {
        self.shared_state.wf()
    }

    /// The registry of the fabric.
    pub open spec fn records(&self) -> Seq<WorkerRecordView> {
        self.shared_state.grpc_worker_channels@
    }

    /// Whether the server has the settings and the cursor of `before`.
    pub open spec fn keeps(&self, before: &Self) -> bool {
        &&& self.shared_state.keeps(&before.shared_state)
        &&& self.shared_state.balancer == before.shared_state.balancer
    }

    /// A server on top of `shared_state`.
    pub fn new(shared_state: GrpcSharedState<B>) -> (r: Self)
        ensures
            r.shared_state == shared_state,
    {
        SchedulerServer { shared_state }
    }

    /// Closes `session` with the failure `status`: its worker leaves the
    /// registry.
    fn reject(&mut self, session: &mut Session, status: Status) -> (r: SessionAction)
        requires
            old(self).wf(),
            old(session).wf(),
        ensures
            final(self).wf(),
            final(self).keeps(old(self)),
            final(session).wf(),
            final(session).state == SessionState::Closed,
            final(session).worker() == old(session).worker(),
            final(self).records() == old(session).released(old(self).records()),
            r@ == SessionActionView::Reject(status@),
    {
        match &session.registered_worker_id {
            Some(id) => {
                self.shared_state.remove(id.as_str());
            },
            None => {},
        }
        session.state = SessionState::Closed;
        SessionAction::Reject(status)
    }

    /// Handles one message from the worker of `session`, received at `now`.
    ///
    /// A session that has ended ignores it. A message without a content
    /// that the scheduler knows closes the session with a failure. A
    /// registration on a new session admits the worker, if the fabric does,
    /// and is answered with an acknowledgement; if it does not, or if the
    /// session has a registered worker already, the session is closed with
    /// a failure. A heartbeat notes that the registered worker was heard
    /// of. A completion is handed on. Whenever a session is closed, its
    /// worker leaves the registry.
    pub fn communicate(&mut self, session: &mut Session, message: WorkerMessage, now: u64) -> (r:
        SessionAction)
        requires
            old(self).wf(),
            old(session).wf(),
        ensures
            final(self).wf(),
            final(self).keeps(old(self)),
            final(session).wf(),
            communicated(
                old(session),
                final(session),
                old(self).records(),
                final(self).records(),
                old(self).shared_state.magic_cookie@,
                message@,
                now,
                r@,
            ),
    {
        let live = match session.state {
            SessionState::Closed => {
                return SessionAction::Nothing;
            },
            SessionState::Evicted => {
                return SessionAction::Nothing;
            },
            SessionState::New => false,
            _ => true,
        };
        match message.worker_message_type {
            None => self.reject(
                session,
                Status::aborted("Unknown worker message or missing data"),
            ),
            Some(WorkerMessageType::Registration(request)) => {
                if live {
                    return self.reject(session, Status::aborted("Worker is already registered"));
                }
                match self.shared_state.register(&request, now) {
                    Ok(()) => {
                        session.registered_worker_id = Some(request.worker_id);
                        session.state = SessionState::Registered;
                        SessionAction::Reply(
                            SchedulerMessage {
                                scheduler_message_type: Some(
                                    SchedulerMessageType::Ack(
                                        Ack {
                                            message: String::from_str("worker connected"),
                                            status: WorkerChannelStatus::Ready,
                                        },
                                    ),
                                ),
                            },
                        )
                    },
                    Err(status) => self.reject(session, status),
                }
            },
            Some(WorkerMessageType::Heartbeat(_)) => {
                if live {
                    session.state = SessionState::Active;
                    match &session.registered_worker_id {
                        Some(id) => {
                            self.shared_state.heartbeat(id.as_str(), now);
                        },
                        None => {},
                    }
                }
                SessionAction::Nothing
            },
            Some(WorkerMessageType::Completion(completion)) => {
                if live {
                    session.state = SessionState::Active;
                }
                SessionAction::Completed(completion)
            },
        }
    }

    /// Looks what waits for the worker of `session` and says what to send.
    ///
    /// A session without a registered worker sends nothing. One whose
    /// worker is registered sends the messages that waited, oldest first,
    /// and its queue is empty afterwards. Where the session was told to
    /// stop, or its worker has left the registry, it then sends the failure
    /// that closes the stream; its worker leaves the registry, and the
    /// session ends as evicted if it was told to stop for silence and as
    /// closed if not.
    pub fn forward(&mut self, session: &mut Session) -> (r: Forward)
        requires
            old(self).wf(),
            old(session).wf(),
        ensures
            final(self).wf(),
            final(self).keeps(old(self)),
            final(session).wf(),
            forwarded(
                old(session),
                final(session),
                old(self).records(),
                final(self).records(),
                messages_view(r.messages@),
                match r.abort {
                    Some(status) => Some(status@),
                    None => None,
                },
            ),
    {
        let live = match session.state {
            SessionState::Registered => true,
            SessionState::Active => true,
            _ => false,
        };
        if !live {
            return Forward { messages: Vec::new(), abort: None };
        }
        let ghost records = self.records();
        let ghost name = session.worker()->0;
        match &session.registered_worker_id {
            Some(id) => {
                let outbound = self.shared_state.take_outbound(id.as_str());
                if outbound.cancelled {
                    proof {
                        lemma_without_drained(records, name);
                    }
                    self.shared_state.remove(id.as_str());
                    session.state = if outbound.evicted {
                        SessionState::Evicted
                    } else {
                        SessionState::Closed
                    };
                    Forward {
                        messages: outbound.messages,
                        abort: Some(Status::aborted("Aborting channel")),
                    }
                } else {
                    session.state = SessionState::Active;
                    Forward { messages: outbound.messages, abort: None }
                }
            },
            None => Forward { messages: Vec::new(), abort: None },
        }
    }

    /// Ends `session` because its stream is gone: its worker leaves the
    /// registry. A session that has ended already stays as it is.
    pub fn close(&mut self, session: &mut Session)
        requires
            old(self).wf(),
            old(session).wf(),
        ensures
            final(self).wf(),
            final(self).keeps(old(self)),
            final(session).wf(),
            closed(old(session), final(session), old(self).records(), final(self).records()),
    {
        match session.state {
            SessionState::Closed => {},
            SessionState::Evicted => {},
            _ => {
                match &session.registered_worker_id {
                    Some(id) => {
                        self.shared_state.remove(id.as_str());
                    },
                    None => {},
                }
                session.state = SessionState::Closed;
            },
        }
    }
}

/// Taking a worker out of the registry comes to the same whether or not
/// its queue was emptied first.
pub proof fn lemma_without_drained(records: Seq<WorkerRecordView>, id: Seq<char>)
    requires
        crate::utils::shared::distinct_ids(records),
    ensures
        without(drained_of(records, id), id) == without(records, id),
        has_worker(drained_of(records, id), id) == has_worker(records, id),
{
    if has_worker(records, id) {
        let p = place_of(records, id);
        let drained = drained_of(records, id);
        assert(drained[p].worker_id == id);
        crate::utils::shared::lemma_update_keeps_ids(records, p, records[p].drained());
        crate::utils::shared::lemma_place_of(drained, id, p);
        assert(drained.remove(p) =~= records.remove(p));
    } else {
        assert(drained_of(records, id) == records);
    }
}

/// A change of the registry that keeps the names of the workers keeps the
/// registry in step with the sessions. Dispatching, queueing heartbeats,
/// evicting and cancelling are such changes.
pub proof fn lemma_same_workers_keep_registry(
    sessions: Seq<Session>,
    records: Seq<WorkerRecordView>,
    after_records: Seq<WorkerRecordView>,
)
    requires
        registry_matches(sessions, records),
        worker_ids(after_records) == worker_ids(records),
    ensures
        registry_matches(sessions, after_records),
{
    assert forall|id: Seq<char>| has_worker(records, id) == has_worker(after_records, id) by {
        lemma_same_ids(records, after_records, id);
    }
    lemma_same_ids(records, after_records, Seq::empty());
}

/// The registry stays in step with the sessions when one of them changes
/// as `change` says: a worker's record is in the registry exactly as long
/// as its stream is open and its registration stands.
proof fn lemma_step_keeps_registry(
    sessions: Seq<Session>,
    i: int,
    after: Session,
    records: Seq<WorkerRecordView>,
    after_records: Seq<WorkerRecordView>,
)
    requires
        registry_matches(sessions, records),
        0 <= i < sessions.len(),
        after.wf(),
        ({
            let before = sessions[i];
            ||| {
                // nothing that counts has changed
                &&& after.is_live() == before.is_live()
                &&& after.worker() == before.worker()
                &&& worker_ids(after_records) == worker_ids(records)
            }
            ||| {
                // the session has ended and its worker has left
                &&& !after.is_live()
                &&& after_records == before.released(records)
                &&& before.is_live() || before.worker() is None
            }
            ||| {
                // the session has ended and had no worker in the registry
                &&& !after.is_live()
                &&& !before.is_live()
                &&& after_records == records
            }
            ||| {
                // the worker of the session was admitted
                &&& !before.is_live()
                &&& after.is_live()
                &&& after.worker() is Some
                &&& !has_worker(records, after.worker()->0)
                &&& exists|record: WorkerRecordView|
                    record.worker_id == after.worker()->0 && after_records == records.push(record)
            }
        }),
    ensures
        registry_matches(sessions.update(i, after), after_records),
{
    let before = sessions[i];
    let next = sessions.update(i, after);
    assert forall|k: int| 0 <= k < next.len() implies (#[trigger] next[k]).wf() by {
        if k != i {
            assert(sessions[k].wf());
        }
    }
    if after.is_live() == before.is_live() && after.worker() == before.worker() && worker_ids(
        after_records,
    ) == worker_ids(records) {
        assert forall|id: Seq<char>| has_worker(records, id) == has_worker(after_records, id) by {
            lemma_same_ids(records, after_records, id);
        }
        lemma_same_ids(records, after_records, Seq::empty());
        assert forall|k: int| 0 <= k < next.len() && (#[trigger] next[k]).is_live() implies has_worker(
            after_records,
            next[k].worker()->0,
        ) by {
            assert(sessions[k].is_live());
        }
        assert forall|a: int, b: int|
            0 <= a < b < next.len() && (#[trigger] next[a]).is_live() && (
            #[trigger] next[b]).is_live() implies next[a].worker() != next[b].worker() by {
            assert(sessions[a].is_live() && sessions[b].is_live());
        }
        assert forall|id: Seq<char>| #[trigger] has_worker(after_records, id) implies is_served(
            next,
            id,
        ) by {
            assert(has_worker(records, id));
            assert(is_served(sessions, id));
            let k = choose|k: int|
                0 <= k < sessions.len() && (#[trigger] sessions[k]).is_live() && sessions[k].worker()
                    == Some(id);
            assert(next[k].is_live() && next[k].worker() == Some(id));
        }
    } else if !after.is_live() && !before.is_live() && after_records == records {
        assert forall|k: int| 0 <= k < next.len() && (#[trigger] next[k]).is_live() implies has_worker(
            after_records,
            next[k].worker()->0,
        ) by {
            assert(sessions[k].is_live());
        }
        assert forall|a: int, b: int|
            0 <= a < b < next.len() && (#[trigger] next[a]).is_live() && (
            #[trigger] next[b]).is_live() implies next[a].worker() != next[b].worker() by {
            assert(sessions[a].is_live() && sessions[b].is_live());
        }
        assert forall|id: Seq<char>| #[trigger] has_worker(after_records, id) implies is_served(
            next,
            id,
        ) by {
            assert(is_served(sessions, id));
            let k = choose|k: int|
                0 <= k < sessions.len() && (#[trigger] sessions[k]).is_live() && sessions[k].worker()
                    == Some(id);
            assert(next[k].is_live() && next[k].worker() == Some(id));
        }
    } else if !after.is_live() && after_records == before.released(records) && (before.is_live()
        || before.worker() is None) {
        if before.worker() is Some {
            let gone = before.worker()->0;
            assert forall|id: Seq<char>|
                has_worker(after_records, id) <==> has_worker(records, id) && id != gone by {
                lemma_without(records, gone, id);
            }
            lemma_without(records, gone, Seq::empty());
            assert forall|k: int|
                0 <= k < next.len() && (#[trigger] next[k]).is_live() implies has_worker(
                after_records,
                next[k].worker()->0,
            ) by {
                assert(sessions[k].is_live());
                if k < i {
                    assert(sessions[k].worker() != sessions[i].worker());
                } else {
                    assert(sessions[i].worker() != sessions[k].worker());
                }
            }
            assert forall|a: int, b: int|
                0 <= a < b < next.len() && (#[trigger] next[a]).is_live() && (
                #[trigger] next[b]).is_live() implies next[a].worker() != next[b].worker() by {
                assert(sessions[a].is_live() && sessions[b].is_live());
            }
            assert forall|id: Seq<char>| #[trigger]
                has_worker(after_records, id) implies is_served(next, id) by {
                assert(has_worker(records, id) && id != gone);
                assert(is_served(sessions, id));
                let k = choose|k: int|
                    0 <= k < sessions.len() && (#[trigger] sessions[k]).is_live()
                        && sessions[k].worker() == Some(id);
                assert(k != i);
                assert(next[k].is_live() && next[k].worker() == Some(id));
            }
        } else {
            assert forall|k: int|
                0 <= k < next.len() && (#[trigger] next[k]).is_live() implies has_worker(
                after_records,
                next[k].worker()->0,
            ) by {
                assert(sessions[k].is_live());
            }
            assert forall|a: int, b: int|
                0 <= a < b < next.len() && (#[trigger] next[a]).is_live() && (
                #[trigger] next[b]).is_live() implies next[a].worker() != next[b].worker() by {
                assert(sessions[a].is_live() && sessions[b].is_live());
            }
            assert forall|id: Seq<char>| #[trigger]
                has_worker(after_records, id) implies is_served(next, id) by {
                assert(is_served(sessions, id));
                let k = choose|k: int|
                    0 <= k < sessions.len() && (#[trigger] sessions[k]).is_live()
                        && sessions[k].worker() == Some(id);
                assert(k != i);
                assert(next[k].is_live() && next[k].worker() == Some(id));
            }
        }
    } else {
        let name = after.worker()->0;
        let record = choose|record: WorkerRecordView|
            record.worker_id == name && after_records == records.push(record);
        assert forall|id: Seq<char>|
            has_worker(after_records, id) <==> has_worker(records, id) || id == name by {
            lemma_push(records, record, id);
        }
        lemma_push(records, record, Seq::empty());
        assert forall|k: int| 0 <= k < next.len() && (#[trigger] next[k]).is_live() implies has_worker(
            after_records,
            next[k].worker()->0,
        ) by {
            if k != i {
                assert(sessions[k].is_live());
            }
        }
        assert forall|a: int, b: int|
            0 <= a < b < next.len() && (#[trigger] next[a]).is_live() && (
            #[trigger] next[b]).is_live() implies next[a].worker() != next[b].worker() by {
            if a != i && b != i {
                assert(sessions[a].is_live() && sessions[b].is_live());
            } else if a == i {
                assert(sessions[b].is_live());
                assert(has_worker(records, sessions[b].worker()->0));
            } else {
                assert(sessions[a].is_live());
                assert(has_worker(records, sessions[a].worker()->0));
            }
        }
        assert forall|id: Seq<char>| #[trigger] has_worker(after_records, id) implies is_served(
            next,
            id,
        ) by {
            if id == name {
                assert(next[i].is_live() && next[i].worker() == Some(id));
            } else {
                assert(is_served(sessions, id));
                let k = choose|k: int|
                    0 <= k < sessions.len() && (#[trigger] sessions[k]).is_live()
                        && sessions[k].worker() == Some(id);
                assert(k != i);
                assert(next[k].is_live() && next[k].worker() == Some(id));
            }
        }
    }
}

/// A worker's record is in the registry exactly as long as its stream is
/// open and its registration stands: where the registry is in step with
/// the sessions, it stays so when one of the sessions handles a message.
pub proof fn lemma_communicate_keeps_registry(
    sessions: Seq<Session>,
    i: int,
    after: Session,
    records: Seq<WorkerRecordView>,
    after_records: Seq<WorkerRecordView>,
    cookie: Seq<char>,
    message: WorkerMessageView,
    now: u64,
    action: SessionActionView,
)
    requires
        registry_matches(sessions, records),
        0 <= i < sessions.len(),
        after.wf(),
        communicated(&sessions[i], &after, records, after_records, cookie, message, now, action),
    ensures
        registry_matches(sessions.update(i, after), after_records),
{
    let before = sessions[i];
    assert(before.wf());
    if before.is_live() {
        let id = before.worker()->0;
        assert(has_worker(records, id));
        let p = place_of(records, id);
        lemma_update_keeps_ids(records, p, records[p].heard(now));
    }
    if !before.is_over() {
        match message.worker_message_type {
            Some(WorkerMessageTypeView::Registration(request)) => {
                if !before.is_live() && !(request.magic_cookie.len() == 0 || request.magic_cookie
                    != cookie) && !has_worker(records, request.worker_id) {
                    assert(new_record(request, now).worker_id == after.worker()->0);
                }
            },
            _ => {},
        }
    }
    lemma_step_keeps_registry(sessions, i, after, records, after_records);
}

/// Where the registry is in step with the sessions, it stays so when one of
/// the sessions sends what waits for its worker.
pub proof fn lemma_forward_keeps_registry(
    sessions: Seq<Session>,
    i: int,
    after: Session,
    records: Seq<WorkerRecordView>,
    after_records: Seq<WorkerRecordView>,
    messages: Seq<SchedulerMessageView>,
    abort: Option<StatusView>,
)
    requires
        registry_matches(sessions, records),
        0 <= i < sessions.len(),
        after.wf(),
        forwarded(&sessions[i], &after, records, after_records, messages, abort),
    ensures
        registry_matches(sessions.update(i, after), after_records),
{
    let before = sessions[i];
    assert(before.wf());
    if before.is_live() {
        let id = before.worker()->0;
        assert(has_worker(records, id));
        let p = place_of(records, id);
        lemma_update_keeps_ids(records, p, records[p].drained());
    }
    lemma_step_keeps_registry(sessions, i, after, records, after_records);
}

/// Where the registry is in step with the sessions, it stays so when the
/// stream of one of the sessions is gone.
pub proof fn lemma_close_keeps_registry(
    sessions: Seq<Session>,
    i: int,
    after: Session,
    records: Seq<WorkerRecordView>,
    after_records: Seq<WorkerRecordView>,
)
    requires
        registry_matches(sessions, records),
        0 <= i < sessions.len(),
        after.wf(),
        closed(&sessions[i], &after, records, after_records),
    ensures
        registry_matches(sessions.update(i, after), after_records),
{
    assert(sessions[i].wf());
    lemma_step_keeps_registry(sessions, i, after, records, after_records);
}

} // verus!
