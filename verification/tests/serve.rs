use rmcp::model::{
    CancelledNotificationParam, ClientNotification, ClientRequest, ClientResult, EmptyResult,
    Message, NumberOrString, ServerNotification, ServerRequest, ServerResult,
};
use rmcp::service::serve::{reply_message, ServeAction, ServeEvent, ServeState};
use rmcp::service::{
    AtomicU32RequestIdProvider, QuitReason, RequestIdProvider, RoleClient, ServiceError,
};

type Event = ServeEvent<RoleClient, &'static str, u8, &'static str>;
type Action = ServeAction<RoleClient, &'static str, u8, &'static str>;

fn num(n: u32) -> NumberOrString {
    NumberOrString::Number(n)
}

fn cancel(id: NumberOrString, reason: &str) -> CancelledNotificationParam {
    CancelledNotificationParam { request_id: id, reason: Some(reason.to_string()) }
}

#[test]
fn response_answers_its_request() {
    let mut s: ServeState<&'static str, &'static str> = ServeState::new();
    let a: Action = s.step(Event::SendRequest(ClientRequest::PingRequest, num(1), "r1"));
    match a {
        ServeAction::WriteRequest { id, displaced_responder, .. } => {
            assert_eq!(id, num(1));
            assert!(displaced_responder.is_none());
        }
        _ => panic!("expected a request to write"),
    }
    assert_eq!(s.pending_requests(), 1);
    let a: Action = s.step(Event::PeerResponse(ServerResult::EmptyResult(EmptyResult {}), num(1)));
    match a {
        ServeAction::Answer { responder, outcome } => {
            assert_eq!(responder, "r1");
            assert!(matches!(outcome, Ok(ServerResult::EmptyResult(_))));
        }
        _ => panic!("expected an answer"),
    }
    assert_eq!(s.pending_requests(), 0);
}

#[test]
fn error_answers_its_request() {
    let mut s: ServeState<&'static str, &'static str> = ServeState::new();
    let _: Action = s.step(Event::SendRequest(ClientRequest::PingRequest, num(7), "r7"));
    let err = rmcp::Error::invalid_params("bad".to_string(), None);
    let a: Action = s.step(Event::PeerError(err, num(7)));
    match a {
        ServeAction::Answer { responder, outcome: Err(ServiceError::McpError(e)) } => {
            assert_eq!(responder, "r7");
            assert_eq!(e.code.0, -32602);
            assert_eq!(e.message, "bad");
        }
        _ => panic!("expected an error answer"),
    }
}

#[test]
fn unsolicited_response_is_dropped() {
    let mut s: ServeState<&'static str, &'static str> = ServeState::new();
    let _: Action = s.step(Event::SendRequest(ClientRequest::PingRequest, num(1), "r1"));
    let a: Action = s.step(Event::PeerResponse(ServerResult::EmptyResult(EmptyResult {}), num(2)));
    assert!(matches!(a, ServeAction::Idle));
    assert_eq!(s.pending_requests(), 1);
}

#[test]
fn string_and_number_ids_differ() {
    let mut s: ServeState<&'static str, &'static str> = ServeState::new();
    let _: Action = s.step(Event::SendRequest(
        ClientRequest::PingRequest,
        NumberOrString::String("1".to_string()),
        "text",
    ));
    let a: Action = s.step(Event::PeerResponse(ServerResult::EmptyResult(EmptyResult {}), num(1)));
    assert!(matches!(a, ServeAction::Idle));
    let a: Action = s.step(Event::PeerResponse(
        ServerResult::EmptyResult(EmptyResult {}),
        NumberOrString::String("1".to_string()),
    ));
    assert!(matches!(a, ServeAction::Answer { responder: "text", .. }));
}

#[test]
fn failed_write_reaches_requester() {
    let mut s: ServeState<&'static str, &'static str> = ServeState::new();
    let _: Action = s.step(Event::SendRequest(ClientRequest::PingRequest, num(3), "r3"));
    let a: Action = s.step(Event::SendRequestFailed(num(3)));
    assert!(matches!(a, ServeAction::FailRequest { waiting: Some("r3") }));
    assert_eq!(s.pending_requests(), 0);
}

#[test]
fn same_id_displaces_earlier_responder() {
    let mut s: ServeState<&'static str, &'static str> = ServeState::new();
    let _: Action = s.step(Event::SendRequest(ClientRequest::PingRequest, num(5), "first"));
    let a: Action = s.step(Event::SendRequest(ClientRequest::PingRequest, num(5), "second"));
    assert!(matches!(a, ServeAction::WriteRequest { displaced_responder: Some("first"), .. }));
    assert_eq!(s.pending_requests(), 1);
}

#[test]
fn cancelling_own_request_answers_once() {
    let mut s: ServeState<&'static str, &'static str> = ServeState::new();
    let _: Action = s.step(Event::SendRequest(ClientRequest::PingRequest, num(4), "r4"));
    let n = ClientNotification::CancelledNotification(cancel(num(4), "user"));
    let a: Action = s.step(Event::SendNotification(n, 9));
    match a {
        ServeAction::WriteNotification { notifier, cancelled: Some((r, ServiceError::Cancelled { reason })), .. } => {
            assert_eq!(notifier, 9);
            assert_eq!(r, "r4");
            assert_eq!(reason.as_deref(), Some("user"));
        }
        _ => panic!("expected the cancelled request to be answered"),
    }
    let a: Action = s.step(Event::PeerResponse(ServerResult::EmptyResult(EmptyResult {}), num(4)));
    assert!(matches!(a, ServeAction::Idle));
}

#[test]
fn other_notification_cancels_nothing() {
    let mut s: ServeState<&'static str, &'static str> = ServeState::new();
    let _: Action = s.step(Event::SendRequest(ClientRequest::PingRequest, num(4), "r4"));
    let a: Action = s.step(Event::SendNotification(ClientNotification::InitializedNotification, 1));
    assert!(matches!(a, ServeAction::WriteNotification { cancelled: None, .. }));
    assert_eq!(s.pending_requests(), 1);
}

#[test]
fn peer_cancel_reaches_handler() {
    let mut s: ServeState<&'static str, &'static str> = ServeState::new();
    let a: Action = s.step(Event::PeerRequest(ServerRequest::ListRootsRequest, num(8), "tok8"));
    assert!(matches!(a, ServeAction::HandleRequest { displaced_token: None, .. }));
    assert_eq!(s.requests_in_progress(), 1);
    let n = ServerNotification::CancelledNotification(cancel(num(8), "timeout"));
    let a: Action = s.step(Event::PeerNotification(n));
    assert!(matches!(a, ServeAction::HandleNotification { cancel: Some("tok8"), .. }));
    assert_eq!(s.requests_in_progress(), 0);
}

#[test]
fn reply_releases_token() {
    let mut s: ServeState<&'static str, &'static str> = ServeState::new();
    let _: Action = s.step(Event::PeerRequest(ServerRequest::PingRequest, num(2), "tok2"));
    let reply: Message<ClientRequest, ClientResult, ClientNotification> =
        Message::Response(ClientResult::EmptyResult(EmptyResult {}), num(2));
    let a: Action = s.step(Event::Reply(reply));
    assert!(matches!(a, ServeAction::WriteReply { cancel: Some("tok2"), .. }));
    assert_eq!(s.requests_in_progress(), 0);
}

#[test]
fn reply_of_unknown_request_still_written() {
    let mut s: ServeState<&'static str, &'static str> = ServeState::new();
    let reply: Message<ClientRequest, ClientResult, ClientNotification> =
        Message::Error(rmcp::Error::internal_error("x".to_string(), None), num(11));
    let a: Action = s.step(Event::Reply(reply));
    assert!(matches!(a, ServeAction::WriteReply { cancel: None, .. }));
}

#[test]
fn reply_that_is_no_answer_is_dropped() {
    let mut s: ServeState<&'static str, &'static str> = ServeState::new();
    let reply: Message<ClientRequest, ClientResult, ClientNotification> =
        Message::Notification(ClientNotification::RootsListChangedNotification);
    let a: Action = s.step(Event::Reply(reply));
    assert!(matches!(a, ServeAction::Idle));
}

#[test]
fn quits_for_the_right_reason() {
    let mut s: ServeState<&'static str, &'static str> = ServeState::new();
    let a: Action = s.step(Event::InputClosed);
    assert!(matches!(a, ServeAction::Quit(QuitReason::Closed)));
    let a: Action = s.step(Event::Cancelled);
    assert!(matches!(a, ServeAction::Quit(QuitReason::Cancelled)));
}

#[test]
fn request_ids_count_up() {
    let p = AtomicU32RequestIdProvider::default();
    assert_eq!(p.next_request_id(), num(0));
    assert_eq!(p.next_request_id(), num(1));
    assert_eq!(p.next_request_id(), num(2));
}

#[test]
fn response_reaches_request_through_other_events() {
    let mut s: ServeState<&'static str, &'static str> = ServeState::new();
    let _: Action = s.step(Event::SendRequest(ClientRequest::PingRequest, num(1), "r1"));
    let _: Action = s.step(Event::SendRequest(ClientRequest::PingRequest, num(2), "r2"));
    let _: Action = s.step(Event::PeerRequest(ServerRequest::PingRequest, num(1), "tok1"));
    let _: Action = s.step(Event::PeerNotification(ServerNotification::ToolListChangedNotification));
    let _: Action = s.step(Event::SendNotification(
        ClientNotification::CancelledNotification(cancel(num(2), "late")),
        0,
    ));
    let _: Action = s.step(Event::PeerResponse(ServerResult::EmptyResult(EmptyResult {}), num(3)));
    let a: Action = s.step(Event::PeerResponse(ServerResult::EmptyResult(EmptyResult {}), num(1)));
    assert!(matches!(a, ServeAction::Answer { responder: "r1", outcome: Ok(_) }));
    let a: Action = s.step(Event::PeerError(rmcp::Error::internal_error("x".to_string(), None), num(1)));
    assert!(matches!(a, ServeAction::Idle));
    assert_eq!(s.pending_requests(), 0);
    assert_eq!(s.requests_in_progress(), 1);
}

#[test]
fn handler_reply_releases_token_through_other_events() {
    let mut s: ServeState<&'static str, &'static str> = ServeState::new();
    let _: Action = s.step(Event::PeerRequest(ServerRequest::ListRootsRequest, num(5), "tok5"));
    let _: Action = s.step(Event::PeerRequest(ServerRequest::PingRequest, num(6), "tok6"));
    let _: Action = s.step(Event::SendRequest(ClientRequest::PingRequest, num(5), "r5"));
    let reply = reply_message::<RoleClient>(Err(rmcp::Error::internal_error("no".to_string(), None)), num(5));
    assert!(matches!(reply, Message::Error(_, NumberOrString::Number(5))));
    let a: Action = s.step(Event::Reply(reply));
    assert!(matches!(a, ServeAction::WriteReply { cancel: Some("tok5"), .. }));
    let reply = reply_message::<RoleClient>(Ok(ClientResult::EmptyResult(EmptyResult {})), num(6));
    assert!(matches!(reply, Message::Response(ClientResult::EmptyResult(_), NumberOrString::Number(6))));
    assert_eq!(s.requests_in_progress(), 1);
    assert_eq!(s.pending_requests(), 1);
}
