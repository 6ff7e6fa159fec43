//! The decisions of a running service.
//!
//! A running service waits for the next event: a reply of one of its own
//! request handlers, a request or notification that the local side wants to
//! send, a message from the peer, the end of the input, or its own
//! cancellation. For each event it decides what to do, and keeps two pools:
//! the responders of the requests it sent that still wait for an answer,
//! and the cancellation tokens of the peer's requests that are still being
//! handled. Both are keyed by request identifier. The waiting, the I/O, and
//! what responders and tokens are, stay outside: this module is the
//! decision.
use vstd::prelude::*;

use super::{QuitReason, ServiceError, ServiceRole};
use crate::error::ErrorData;
use crate::key_map::KeyMap;
use crate::model::{CancellationNotice, Message, NumberOrStringView, RequestId};

verus! {

/// The value stored under `k`, if any.
pub open spec fn lookup<K, V>(m: Map<K, V>, k: K) -> Option<V> {
    if m.dom().contains(k) {
        Some(m[k])
    } else {
        None
    }
}

/// The pools of a running service: responders of outgoing requests, and
/// tokens of incoming requests, each keyed by request identifier.
pub struct ServeState<Rsp, Tok> {
    responders: KeyMap<RequestId, Rsp>,
    tokens: KeyMap<RequestId, Tok>,
}

pub struct ServeStateView<Rsp, Tok> {
    pub responders: Map<NumberOrStringView, Rsp>,
    pub tokens: Map<NumberOrStringView, Tok>,
}

impl<Rsp, Tok> View for ServeState<Rsp, Tok> {
    type V = ServeStateView<Rsp, Tok>;

    closed spec fn view(&self) -> ServeStateView<Rsp, Tok> {
        ServeStateView { responders: self.responders@, tokens: self.tokens@ }
    }
}

/// What happened: the input of one decision.
pub enum ServeEvent<R: ServiceRole, Rsp, NRsp, Tok> {
    /// A local request handler produced this message for the peer.
    Reply(Message<R::Req, R::Resp, R::Not>),
    /// The local side sends a request; `Rsp` is to receive its answer.
    SendRequest(R::Req, RequestId, Rsp),
    /// Writing the request of this identifier to the peer failed.
    SendRequestFailed(RequestId),
    /// The local side sends a notification; `NRsp` is to hear of a failure.
    SendNotification(R::Not, NRsp),
    /// The peer sent a request; `Tok` is a fresh token that cancels its
    /// handling.
    PeerRequest(R::PeerReq, RequestId, Tok),
    /// The peer sent a notification.
    PeerNotification(R::PeerNot),
    /// The peer answered the request of this identifier with a result.
    PeerResponse(R::PeerResp, RequestId),
    /// The peer answered the request of this identifier with an error.
    PeerError(ErrorData, RequestId),
    /// The input from the peer ended.
    InputClosed,
    /// The service itself was cancelled.
    Cancelled,
}

/// What to do: the output of one decision.
pub enum ServeAction<R: ServiceRole, Rsp, NRsp, Tok> {
    /// Nothing; a message that the event carried is dropped.
    Idle,
    /// Cancel `cancel`, if there is one, then write `message` to the peer.
    WriteReply { message: Message<R::Req, R::Resp, R::Not>, cancel: Option<Tok> },
    /// Write the request to the peer; if that fails, report
    /// `SendRequestFailed(id)`. `displaced_responder` is a responder that waited under
    /// the same identifier before, and is dropped.
    WriteRequest { request: R::Req, id: RequestId, displaced_responder: Option<Rsp> },
    /// Tell `waiting`, if there is one, that its request could not be
    /// written.
    FailRequest { waiting: Option<Rsp> },
    /// Write the notification to the peer, and tell `notifier` whether
    /// that worked (`Ok` after a good write, the failure otherwise); then
    /// answer the responder in `cancelled`, if any, with its error.
    WriteNotification { notification: R::Not, notifier: NRsp, cancelled: Option<(Rsp, ServiceError)> },
    /// Hand the request to the local service, with a context whose token
    /// is a child of the token now registered; `displaced_token` is a token that
    /// was registered under the same identifier before, and is dropped.
    HandleRequest { peer_request: R::PeerReq, id: RequestId, displaced_token: Option<Tok> },
    /// Cancel `cancel`, if there is one, then hand the notification to the
    /// local service.
    HandleNotification { peer_notification: R::PeerNot, cancel: Option<Tok> },
    /// Send `outcome` to `responder`.
    Answer { responder: Rsp, outcome: Result<R::PeerResp, ServiceError> },
    /// Stop serving.
    Quit(QuitReason),
}

/// The decision for `e` in state `s`: the next state and the action.
pub open spec fn spec_step<R: ServiceRole, Rsp, NRsp, Tok>(
    s: ServeStateView<Rsp, Tok>,
    e: ServeEvent<R, Rsp, NRsp, Tok>,
) -> (ServeStateView<Rsp, Tok>, ServeAction<R, Rsp, NRsp, Tok>) {
    match e {
        ServeEvent::Reply(m) => match m {
            Message::Response(v, id) => (
                ServeStateView { tokens: s.tokens.remove(id@), ..s },
                ServeAction::WriteReply {
                    message: Message::Response(v, id),
                    cancel: lookup(s.tokens, id@),
                },
            ),
            Message::Error(err, id) => (
                ServeStateView { tokens: s.tokens.remove(id@), ..s },
                ServeAction::WriteReply {
                    message: Message::Error(err, id),
                    cancel: lookup(s.tokens, id@),
                },
            ),
            _ => (s, ServeAction::Idle),
        },
        ServeEvent::SendRequest(q, id, r) => (
            ServeStateView { responders: s.responders.insert(id@, r), ..s },
            ServeAction::WriteRequest { request: q, id, displaced_responder: lookup(s.responders, id@) },
        ),
        ServeEvent::SendRequestFailed(id) => (
            ServeStateView { responders: s.responders.remove(id@), ..s },
            ServeAction::FailRequest { waiting: lookup(s.responders, id@) },
        ),
        ServeEvent::SendNotification(n, nr) => match n.cancellation() {
            Some(p) => (
                ServeStateView { responders: s.responders.remove(p.request_id@), ..s },
                ServeAction::WriteNotification {
                    notification: n,
                    notifier: nr,
                    cancelled: match lookup(s.responders, p.request_id@) {
                        Some(r) => Some((r, ServiceError::Cancelled { reason: p.reason })),
                        None => None,
                    },
                },
            ),
            None => (
                s,
                ServeAction::WriteNotification { notification: n, notifier: nr, cancelled: None },
            ),
        },
        ServeEvent::PeerRequest(q, id, t) => (
            ServeStateView { tokens: s.tokens.insert(id@, t), ..s },
            ServeAction::HandleRequest { peer_request: q, id, displaced_token: lookup(s.tokens, id@) },
        ),
        ServeEvent::PeerNotification(n) => match n.cancellation() {
            Some(p) => (
                ServeStateView { tokens: s.tokens.remove(p.request_id@), ..s },
                ServeAction::HandleNotification {
                    peer_notification: n,
                    cancel: lookup(s.tokens, p.request_id@),
                },
            ),
            None => (s, ServeAction::HandleNotification { peer_notification: n, cancel: None }),
        },
        ServeEvent::PeerResponse(v, id) => (
            ServeStateView { responders: s.responders.remove(id@), ..s },
            match lookup(s.responders, id@) {
                Some(r) => ServeAction::Answer { responder: r, outcome: Ok(v) },
                None => ServeAction::Idle,
            },
        ),
        ServeEvent::PeerError(err, id) => (
            ServeStateView { responders: s.responders.remove(id@), ..s },
            match lookup(s.responders, id@) {
                Some(r) => ServeAction::Answer {
                    responder: r,
                    outcome: Err(ServiceError::McpError(err)),
                },
                None => ServeAction::Idle,
            },
        ),
        ServeEvent::InputClosed => (s, ServeAction::Quit(QuitReason::Closed)),
        ServeEvent::Cancelled => (s, ServeAction::Quit(QuitReason::Cancelled)),
    }
}

impl<Rsp, Tok> ServeState<Rsp, Tok> {
    /// No request waits, none is being handled.
    pub fn new() -> (r: Self)
        ensures
            r@.responders == Map::<NumberOrStringView, Rsp>::empty(),
            r@.tokens == Map::<NumberOrStringView, Tok>::empty(),
    {
        ServeState { responders: KeyMap::new(), tokens: KeyMap::new() }
    }

    /// The number of sent requests that still wait for their answer.
    pub fn pending_requests(&self) -> (r: usize)
        ensures
            r == self@.responders.len(),
    {
        self.responders.len()
    }

    /// The number of the peer's requests that are still being handled.
    pub fn requests_in_progress(&self) -> (r: usize)
        ensures
            r == self@.tokens.len(),
    {
        self.tokens.len()
    }

    fn take_token(&mut self, id: &RequestId) -> (r: Option<Tok>)
        ensures
            final(self)@ == (ServeStateView { tokens: old(self)@.tokens.remove(id@), ..old(self)@ }),
            r == lookup(old(self)@.tokens, id@),
    {
        self.tokens.remove(id)
    }

    fn take_responder(&mut self, id: &RequestId) -> (r: Option<Rsp>)
        ensures
            final(self)@ == (ServeStateView { responders: old(self)@.responders.remove(id@), ..old(self)@ }),
            r == lookup(old(self)@.responders, id@),
    {
        self.responders.remove(id)
    }

    /// Decides what to do on `event`.
    pub fn step<R: ServiceRole, NRsp>(&mut self, event: ServeEvent<R, Rsp, NRsp, Tok>) -> (r:
        ServeAction<R, Rsp, NRsp, Tok>)
        ensures
            (final(self)@, r) == spec_step(old(self)@, event),
    {
        match event {
            ServeEvent::Reply(m) => match m {
                Message::Response(v, id) => {
                    let cancel = self.take_token(&id);
                    ServeAction::WriteReply { message: Message::Response(v, id), cancel }
                },
                Message::Error(err, id) => {
                    let cancel = self.take_token(&id);
                    ServeAction::WriteReply { message: Message::Error(err, id), cancel }
                },
                _ => ServeAction::Idle,
            },
            ServeEvent::SendRequest(q, id, r) => {
                let key = id.clone();
                let displaced_responder = self.responders.insert(key, r);
                ServeAction::WriteRequest { request: q, id, displaced_responder }
            },
            ServeEvent::SendRequestFailed(id) => {
                let waiting = self.take_responder(&id);
                ServeAction::FailRequest { waiting }
            },
            ServeEvent::SendNotification(n, nr) => match n.cancelled_param() {
                Some(p) => {
                    let cancelled = match self.take_responder(&p.request_id) {
                        Some(r) => Some((r, ServiceError::Cancelled { reason: p.reason })),
                        None => None,
                    };
                    ServeAction::WriteNotification { notification: n, notifier: nr, cancelled }
                },
                None => ServeAction::WriteNotification {
                    notification: n,
                    notifier: nr,
                    cancelled: None,
                },
            },
            ServeEvent::PeerRequest(q, id, t) => {
                let key = id.clone();
                let displaced_token = self.tokens.insert(key, t);
                ServeAction::HandleRequest { peer_request: q, id, displaced_token }
            },
            ServeEvent::PeerNotification(n) => match n.cancelled_param() {
                Some(p) => {
                    let cancel = self.take_token(&p.request_id);
                    ServeAction::HandleNotification { peer_notification: n, cancel }
                },
                None => ServeAction::HandleNotification { peer_notification: n, cancel: None },
            },
            ServeEvent::PeerResponse(v, id) => match self.take_responder(&id) {
                Some(r) => ServeAction::Answer { responder: r, outcome: Ok(v) },
                None => ServeAction::Idle,
            },
            ServeEvent::PeerError(err, id) => match self.take_responder(&id) {
                Some(r) => ServeAction::Answer {
                    responder: r,
                    outcome: Err(ServiceError::McpError(err)),
                },
                None => ServeAction::Idle,
            },
            ServeEvent::InputClosed => ServeAction::Quit(QuitReason::Closed),
            ServeEvent::Cancelled => ServeAction::Quit(QuitReason::Cancelled),
        }
    }
}

/// When a request cannot be written, its own responder is told, and no
/// longer waits.
pub proof fn law_failed_write_reaches_requester<R: ServiceRole, Rsp, NRsp, Tok>(
    s: ServeStateView<Rsp, Tok>,
    q: R::Req,
    id: RequestId,
    r: Rsp,
)
    ensures
        ({
            let (s1, a1) = spec_step::<R, Rsp, NRsp, Tok>(
                s,
                ServeEvent::SendRequest(q, id, r),
            );
            let (s2, a2) = spec_step::<R, Rsp, NRsp, Tok>(s1, ServeEvent::SendRequestFailed(id));
            &&& a1 == ServeAction::<R, Rsp, NRsp, Tok>::WriteRequest {
                request: q,
                id,
                displaced_responder: lookup(s.responders, id@),
            }
            &&& a2 == ServeAction::<R, Rsp, NRsp, Tok>::FailRequest { waiting: Some(r) }
            &&& s2.responders == s.responders.remove(id@)
            &&& s2.tokens == s.tokens
        }),
{
    let s1 = spec_step::<R, Rsp, NRsp, Tok>(s, ServeEvent::SendRequest(q, id, r)).0;
    assert(s1.responders.remove(id@) =~= s.responders.remove(id@));
}

/// An answer to no waiting request is dropped and changes nothing.
pub proof fn law_unsolicited_answer_dropped<R: ServiceRole, Rsp, NRsp, Tok>(
    s: ServeStateView<Rsp, Tok>,
    v: R::PeerResp,
    id: RequestId,
)
    requires
        !s.responders.dom().contains(id@),
    ensures
        ({
            let (s1, a) = spec_step::<R, Rsp, NRsp, Tok>(s, ServeEvent::PeerResponse(v, id));
            &&& a == ServeAction::<R, Rsp, NRsp, Tok>::Idle
            &&& s1.responders == s.responders
            &&& s1.tokens == s.tokens
        }),
{
    assert(s.responders.remove(id@) =~= s.responders);
}


/// Whether the event reads or changes the responder waiting under `k`.
pub open spec fn names_responder<R: ServiceRole, Rsp, NRsp, Tok>(
    e: ServeEvent<R, Rsp, NRsp, Tok>,
    k: NumberOrStringView,
) -> bool {
    match e {
        ServeEvent::SendRequest(_, id, _) => id@ == k,
        ServeEvent::SendRequestFailed(id) => id@ == k,
        ServeEvent::SendNotification(n, _) => n.cancellation() matches Some(p) && p.request_id@ == k,
        ServeEvent::PeerResponse(_, id) => id@ == k,
        ServeEvent::PeerError(_, id) => id@ == k,
        _ => false,
    }
}

/// Whether the event reads or changes the token registered under `k`.
pub open spec fn names_token<R: ServiceRole, Rsp, NRsp, Tok>(
    e: ServeEvent<R, Rsp, NRsp, Tok>,
    k: NumberOrStringView,
) -> bool {
    match e {
        ServeEvent::Reply(m) => match m {
            Message::Response(_, id) => id@ == k,
            Message::Error(_, id) => id@ == k,
            _ => false,
        },
        ServeEvent::PeerRequest(_, id, _) => id@ == k,
        ServeEvent::PeerNotification(n) => n.cancellation() matches Some(p) && p.request_id@ == k,
        _ => false,
    }
}

/// The state after the events `es`, one decision after the other, from `s`.
pub open spec fn run_state<R: ServiceRole, Rsp, NRsp, Tok>(
    s: ServeStateView<Rsp, Tok>,
    es: Seq<ServeEvent<R, Rsp, NRsp, Tok>>,
) -> ServeStateView<Rsp, Tok>
    decreases es.len(),
{
    if es.len() == 0 {
        s
    } else {
        spec_step(run_state(s, es.drop_last()), es.last()).0
    }
}

/// The actions decided for the events `es`, one per event, from `s`.
pub open spec fn run_actions<R: ServiceRole, Rsp, NRsp, Tok>(
    s: ServeStateView<Rsp, Tok>,
    es: Seq<ServeEvent<R, Rsp, NRsp, Tok>>,
) -> Seq<ServeAction<R, Rsp, NRsp, Tok>>
    decreases es.len(),
{
    if es.len() == 0 {
        Seq::empty()
    } else {
        run_actions(s, es.drop_last()).push(spec_step(run_state(s, es.drop_last()), es.last()).1)
    }
}

/// The message that answers the peer's request `id` with what the local
/// handler returned: its result, or its error.
pub open spec fn spec_reply_message<R: ServiceRole>(
    result: Result<R::Resp, ErrorData>,
    id: RequestId,
) -> Message<R::Req, R::Resp, R::Not> {
    match result {
        Ok(v) => Message::Response(v, id),
        Err(e) => Message::Error(e, id),
    }
}

/// The message that answers the peer's request `id` with what the local
/// handler returned.
pub fn reply_message<R: ServiceRole>(result: Result<R::Resp, ErrorData>, id: RequestId) -> (r:
    Message<R::Req, R::Resp, R::Not>)
    ensures
        r == spec_reply_message::<R>(result, id),
{
    match result {
        Ok(v) => Message::Response(v, id),
        Err(e) => Message::Error(e, id),
    }
}

/// An event that does not name `k` leaves what waits under `k`, and what
/// is registered under `k`, as it was.
pub proof fn law_other_events_leave_entry<R: ServiceRole, Rsp, NRsp, Tok>(
    s: ServeStateView<Rsp, Tok>,
    e: ServeEvent<R, Rsp, NRsp, Tok>,
    k: NumberOrStringView,
)
    ensures
        !names_responder(e, k) ==> lookup(spec_step(s, e).0.responders, k) == lookup(s.responders, k),
        !names_token(e, k) ==> lookup(spec_step(s, e).0.tokens, k) == lookup(s.tokens, k),
{
}

/// Events none of which names `k` leave what waits under `k`, and what is
/// registered under `k`, as it was.
pub proof fn law_other_runs_leave_entry<R: ServiceRole, Rsp, NRsp, Tok>(
    s: ServeStateView<Rsp, Tok>,
    es: Seq<ServeEvent<R, Rsp, NRsp, Tok>>,
    k: NumberOrStringView,
)
    ensures
        (forall|i: int| 0 <= i < es.len() ==> !names_responder(#[trigger] es[i], k)) ==> lookup(
            run_state(s, es).responders,
            k,
        ) == lookup(s.responders, k),
        (forall|i: int| 0 <= i < es.len() ==> !names_token(#[trigger] es[i], k)) ==> lookup(
            run_state(s, es).tokens,
            k,
        ) == lookup(s.tokens, k),
    decreases es.len(),
{
    if es.len() > 0 {
        let prev = es.drop_last();
        law_other_runs_leave_entry(s, prev, k);
        law_other_events_leave_entry(run_state(s, prev), es.last(), k);
        if forall|i: int| 0 <= i < es.len() ==> !names_responder(#[trigger] es[i], k) {
            assert forall|i: int| 0 <= i < prev.len() implies !names_responder(#[trigger] prev[i], k) by {
                assert(prev[i] == es[i]);
            }
            assert(!names_responder(es[es.len() - 1], k));
        }
        if forall|i: int| 0 <= i < es.len() ==> !names_token(#[trigger] es[i], k) {
            assert forall|i: int| 0 <= i < prev.len() implies !names_token(#[trigger] prev[i], k) by {
                assert(prev[i] == es[i]);
            }
            assert(!names_token(es[es.len() - 1], k));
        }
    }
}

proof fn lemma_run_after_first<R: ServiceRole, Rsp, NRsp, Tok>(
    s: ServeStateView<Rsp, Tok>,
    e: ServeEvent<R, Rsp, NRsp, Tok>,
    mid: Seq<ServeEvent<R, Rsp, NRsp, Tok>>,
)
    ensures
        run_state(s, seq![e] + mid) == run_state(spec_step(s, e).0, mid),
    decreases mid.len(),
{
    let es = seq![e] + mid;
    if mid.len() == 0 {
        assert(es.drop_last() =~= Seq::<ServeEvent<R, Rsp, NRsp, Tok>>::empty());
        assert(es.last() == e);
        assert(run_state(s, es.drop_last()) == s);
        assert(run_state(s, es) == spec_step(run_state(s, es.drop_last()), es.last()).0);
    } else {
        assert(es.drop_last() =~= seq![e] + mid.drop_last());
        assert(es.last() == mid.last());
        lemma_run_after_first(s, e, mid.drop_last());
        assert(run_state(s, es) == spec_step(run_state(s, es.drop_last()), es.last()).0);
    }
}

/// The state and the last action of the run `first`, `mid`, `last`: the
/// state before `last` is the one reached from `first` through `mid`.
proof fn lemma_run_around<R: ServiceRole, Rsp, NRsp, Tok>(
    s: ServeStateView<Rsp, Tok>,
    first: ServeEvent<R, Rsp, NRsp, Tok>,
    mid: Seq<ServeEvent<R, Rsp, NRsp, Tok>>,
    last: ServeEvent<R, Rsp, NRsp, Tok>,
)
    ensures
        ({
            let es = seq![first] + mid + seq![last];
            let before = run_state(spec_step(s, first).0, mid);
            &&& run_state(s, es) == spec_step(before, last).0
            &&& run_actions(s, es).last() == spec_step(before, last).1
        }),
{
    let es = seq![first] + mid + seq![last];
    assert(es.drop_last() =~= seq![first] + mid);
    assert(es.last() == last);
    lemma_run_after_first(s, first, mid);
}

/// A result from the peer reaches the responder of the request sent under
/// its identifier, whatever came in between that names another request,
/// and that responder no longer waits.
pub proof fn law_response_answers_request<R: ServiceRole, Rsp, NRsp, Tok>(
    s: ServeStateView<Rsp, Tok>,
    q: R::Req,
    id: RequestId,
    r: Rsp,
    mid: Seq<ServeEvent<R, Rsp, NRsp, Tok>>,
    v: R::PeerResp,
    answer_id: RequestId,
)
    requires
        answer_id@ == id@,
        forall|i: int| 0 <= i < mid.len() ==> !names_responder(#[trigger] mid[i], id@),
    ensures
        ({
            let es = seq![ServeEvent::SendRequest(q, id, r)] + mid + seq![
                ServeEvent::PeerResponse(v, answer_id),
            ];
            &&& run_actions(s, es).last() == ServeAction::<R, Rsp, NRsp, Tok>::Answer {
                responder: r,
                outcome: Ok(v),
            }
            &&& !run_state(s, es).responders.dom().contains(id@)
        }),
{
    let first = ServeEvent::<R, Rsp, NRsp, Tok>::SendRequest(q, id, r);
    lemma_run_around(s, first, mid, ServeEvent::PeerResponse(v, answer_id));
    law_other_runs_leave_entry(spec_step(s, first).0, mid, id@);
}

/// An error from the peer reaches the responder of the request sent under
/// its identifier, whatever came in between that names another request,
/// and that responder no longer waits.
pub proof fn law_error_answers_request<R: ServiceRole, Rsp, NRsp, Tok>(
    s: ServeStateView<Rsp, Tok>,
    q: R::Req,
    id: RequestId,
    r: Rsp,
    mid: Seq<ServeEvent<R, Rsp, NRsp, Tok>>,
    err: ErrorData,
    answer_id: RequestId,
)
    requires
        answer_id@ == id@,
        forall|i: int| 0 <= i < mid.len() ==> !names_responder(#[trigger] mid[i], id@),
    ensures
        ({
            let es = seq![ServeEvent::SendRequest(q, id, r)] + mid + seq![
                ServeEvent::PeerError(err, answer_id),
            ];
            &&& run_actions(s, es).last() == ServeAction::<R, Rsp, NRsp, Tok>::Answer {
                responder: r,
                outcome: Err(ServiceError::McpError(err)),
            }
            &&& !run_state(s, es).responders.dom().contains(id@)
        }),
{
    let first = ServeEvent::<R, Rsp, NRsp, Tok>::SendRequest(q, id, r);
    lemma_run_around(s, first, mid, ServeEvent::PeerError(err, answer_id));
    law_other_runs_leave_entry(spec_step(s, first).0, mid, id@);
}

/// Cancelling a request of one's own answers its responder with
/// `Cancelled` and the reason given, whatever came in between that names
/// another request; the notification is still written, and the responder
/// no longer waits.
pub proof fn law_cancel_answers_request<R: ServiceRole, Rsp, NRsp, Tok>(
    s: ServeStateView<Rsp, Tok>,
    q: R::Req,
    id: RequestId,
    r: Rsp,
    mid: Seq<ServeEvent<R, Rsp, NRsp, Tok>>,
    n: R::Not,
    nr: NRsp,
)
    requires
        n.cancellation() is Some,
        n.cancellation()->Some_0.request_id@ == id@,
        forall|i: int| 0 <= i < mid.len() ==> !names_responder(#[trigger] mid[i], id@),
    ensures
        ({
            let es = seq![ServeEvent::SendRequest(q, id, r)] + mid + seq![
                ServeEvent::SendNotification(n, nr),
            ];
            &&& run_actions(s, es).last() == ServeAction::<R, Rsp, NRsp, Tok>::WriteNotification {
                notification: n,
                notifier: nr,
                cancelled: Some(
                    (r, ServiceError::Cancelled { reason: n.cancellation()->Some_0.reason }),
                ),
            }
            &&& !run_state(s, es).responders.dom().contains(id@)
        }),
{
    let first = ServeEvent::<R, Rsp, NRsp, Tok>::SendRequest(q, id, r);
    lemma_run_around(s, first, mid, ServeEvent::SendNotification(n, nr));
    law_other_runs_leave_entry(spec_step(s, first).0, mid, id@);
}

/// Once its request no longer waits, nothing that comes later under its
/// identifier reaches a responder, until a request is sent again under it:
/// a responder is answered once.
pub proof fn law_answered_once<R: ServiceRole, Rsp, NRsp, Tok>(
    s: ServeStateView<Rsp, Tok>,
    mid: Seq<ServeEvent<R, Rsp, NRsp, Tok>>,
    last: ServeEvent<R, Rsp, NRsp, Tok>,
    k: NumberOrStringView,
)
    requires
        !s.responders.dom().contains(k),
        forall|i: int| 0 <= i < mid.len() ==> !names_responder(#[trigger] mid[i], k),
        (last matches ServeEvent::PeerResponse(_, id) && id@ == k) || (last matches ServeEvent::PeerError(
            _,
            id,
        ) && id@ == k),
    ensures
        spec_step(run_state(s, mid), last).1 == ServeAction::<R, Rsp, NRsp, Tok>::Idle,
{
    law_other_runs_leave_entry(s, mid, k);
}

/// The reply to a peer's request, whatever came in between that names
/// another request, carries the token that the request registered, to be
/// cancelled, and the request is no longer in progress.
pub proof fn law_reply_releases_token<R: ServiceRole, Rsp, NRsp, Tok>(
    s: ServeStateView<Rsp, Tok>,
    q: R::PeerReq,
    id: RequestId,
    t: Tok,
    mid: Seq<ServeEvent<R, Rsp, NRsp, Tok>>,
    result: Result<R::Resp, ErrorData>,
    reply_id: RequestId,
)
    requires
        reply_id@ == id@,
        forall|i: int| 0 <= i < mid.len() ==> !names_token(#[trigger] mid[i], id@),
    ensures
        ({
            let reply = spec_reply_message::<R>(result, reply_id);
            let es = seq![ServeEvent::PeerRequest(q, id, t)] + mid + seq![ServeEvent::Reply(reply)];
            &&& run_actions(s, es).last() == ServeAction::<R, Rsp, NRsp, Tok>::WriteReply {
                message: reply,
                cancel: Some(t),
            }
            &&& !run_state(s, es).tokens.dom().contains(id@)
        }),
{
    let first = ServeEvent::<R, Rsp, NRsp, Tok>::PeerRequest(q, id, t);
    let reply = spec_reply_message::<R>(result, reply_id);
    lemma_run_around(s, first, mid, ServeEvent::Reply(reply));
    law_other_runs_leave_entry(spec_step(s, first).0, mid, id@);
}

/// A cancellation from the peer cancels the token of the request it names,
/// registered when that request arrived, whatever came in between that
/// names another request.
pub proof fn law_peer_cancel_reaches_handler<R: ServiceRole, Rsp, NRsp, Tok>(
    s: ServeStateView<Rsp, Tok>,
    q: R::PeerReq,
    id: RequestId,
    t: Tok,
    mid: Seq<ServeEvent<R, Rsp, NRsp, Tok>>,
    n: R::PeerNot,
)
    requires
        n.cancellation() is Some,
        n.cancellation()->Some_0.request_id@ == id@,
        forall|i: int| 0 <= i < mid.len() ==> !names_token(#[trigger] mid[i], id@),
    ensures
        ({
            let es = seq![ServeEvent::PeerRequest(q, id, t)] + mid + seq![
                ServeEvent::PeerNotification(n),
            ];
            &&& run_actions(s, es).last() == ServeAction::<R, Rsp, NRsp, Tok>::HandleNotification {
                peer_notification: n,
                cancel: Some(t),
            }
            &&& !run_state(s, es).tokens.dom().contains(id@)
        }),
{
    let first = ServeEvent::<R, Rsp, NRsp, Tok>::PeerRequest(q, id, t);
    lemma_run_around(s, first, mid, ServeEvent::PeerNotification(n));
    law_other_runs_leave_entry(spec_step(s, first).0, mid, id@);
}

/// A request of the peer is handed to the local service as it came, under
/// the identifier the peer gave it, and its token is registered under that
/// identifier; nothing waiting changes.
pub proof fn law_peer_request_dispatched<R: ServiceRole, Rsp, NRsp, Tok>(
    s: ServeStateView<Rsp, Tok>,
    q: R::PeerReq,
    id: RequestId,
    t: Tok,
)
    ensures
        ({
            let (s1, a) = spec_step::<R, Rsp, NRsp, Tok>(s, ServeEvent::PeerRequest(q, id, t));
            &&& a matches ServeAction::HandleRequest { peer_request, id: rid, .. } && peer_request == q
                && rid == id
            &&& lookup(s1.tokens, id@) == Some(t)
            &&& s1.responders == s.responders
        }),
{
}

/// Every notification of the peer is handed to the local service as it
/// came; one that cancels nothing cancels no token and changes nothing.
pub proof fn law_peer_notification_handled<R: ServiceRole, Rsp, NRsp, Tok>(
    s: ServeStateView<Rsp, Tok>,
    n: R::PeerNot,
)
    ensures
        ({
            let (s1, a) = spec_step::<R, Rsp, NRsp, Tok>(s, ServeEvent::PeerNotification(n));
            &&& a matches ServeAction::HandleNotification { peer_notification, .. } && peer_notification
                == n
            &&& n.cancellation() is None ==> (a matches ServeAction::HandleNotification { cancel, .. }
                && cancel is None)
            &&& n.cancellation() is None ==> s1.tokens == s.tokens
            &&& s1.responders == s.responders
        }),
{
}

/// Every notification of the local side is written to the peer as it
/// came, with the notifier that is to hear how the write went; one that
/// cancels nothing answers no responder and changes nothing.
pub proof fn law_local_notification_written<R: ServiceRole, Rsp, NRsp, Tok>(
    s: ServeStateView<Rsp, Tok>,
    n: R::Not,
    nr: NRsp,
)
    ensures
        ({
            let (s1, a) = spec_step::<R, Rsp, NRsp, Tok>(s, ServeEvent::SendNotification(n, nr));
            &&& a matches ServeAction::WriteNotification { notification, notifier, .. }
                && notification == n && notifier == nr
            &&& n.cancellation() is None ==> (a matches ServeAction::WriteNotification {
                cancelled,
                ..
            } && cancelled is None)
            &&& n.cancellation() is None ==> s1.responders == s.responders
            &&& s1.tokens == s.tokens
        }),
{
}

/// The end of the input and the service's own cancellation each stop the
/// service, with that reason, and change nothing.
pub proof fn law_service_quits<R: ServiceRole, Rsp, NRsp, Tok>(s: ServeStateView<Rsp, Tok>)
    ensures
        spec_step::<R, Rsp, NRsp, Tok>(s, ServeEvent::InputClosed) == (
            s,
            ServeAction::<R, Rsp, NRsp, Tok>::Quit(QuitReason::Closed),
        ),
        spec_step::<R, Rsp, NRsp, Tok>(s, ServeEvent::Cancelled) == (
            s,
            ServeAction::<R, Rsp, NRsp, Tok>::Quit(QuitReason::Cancelled),
        ),
{
}

} // verus!
