use rmcp::handler::client::{default_client_info, default_create_message, default_list_roots, ClientHandlerOutcome, ClientHandlerService};
use rmcp::handler::server::{
    default_call_tool, default_complete, default_get_prompt, default_list_prompts,
    default_list_resource_templates, default_list_resources, default_list_tools, default_ping,
    default_read_resource, default_server_info, default_set_level, default_subscribe,
    default_unsubscribe, ServerHandlerOutcome, ServerHandlerService,
};
use rmcp::model::{
    ClientResult, EmptyResult, InitializeResult, ListRootsResult, Message, NumberOrString,
    ServerNotification, ServerRequest, ServerResult,
};
use rmcp::service::client::{check_initialize_response, initialize_request, HandshakeError};
use rmcp::service::ServiceError;
use rmcp::transport::{child_pipes_check, Transport};

fn info() -> InitializeResult {
    default_server_info()
}

#[test]
fn handshake_accepts_own_result() {
    let id = NumberOrString::Number(0);
    let m: Message<ServerRequest, ServerResult, ServerNotification> =
        Message::Response(ServerResult::InitializeResult(info()), NumberOrString::Number(0));
    let r = check_initialize_response(&id, Some(m)).unwrap();
    assert_eq!(r.protocol_version.0, "2024-11-05");
}

#[test]
fn handshake_failures() {
    let id = NumberOrString::Number(0);
    let e = check_initialize_response(&id, None).unwrap_err();
    assert!(e.is_unexpected_eof());
    assert_eq!(e.description(), Some("expect initialize response"));
    let m = Message::Response(ServerResult::InitializeResult(info()), NumberOrString::Number(1));
    let e = check_initialize_response(&id, Some(m)).unwrap_err();
    assert!(matches!(e, HandshakeError::ConflictingId));
    assert_eq!(e.description(), Some("conflict initialize response id"));
    let m = Message::Response(ServerResult::EmptyResult(EmptyResult {}), NumberOrString::Number(0));
    let e = check_initialize_response(&id, Some(m)).unwrap_err();
    assert!(matches!(e, HandshakeError::WrongResult));
    assert_eq!(e.description(), Some("expect initialize result"));
    let m = Message::Notification(ServerNotification::ToolListChangedNotification);
    let e = check_initialize_response(&id, Some(m)).unwrap_err();
    assert!(matches!(e, HandshakeError::NotAResult));
    let m = Message::Error(rmcp::Error::internal_error("no".to_string(), None), NumberOrString::Number(0));
    let e = check_initialize_response(&id, Some(m)).unwrap_err();
    assert!(matches!(e, HandshakeError::Refused(_)));
    assert!(!e.is_unexpected_eof());
    assert_eq!(e.description(), None);
}

#[test]
fn opening_request_carries_the_client_info() {
    let m = initialize_request(default_client_info(), NumberOrString::Number(0));
    match m {
        Message::Request(rmcp::model::ClientRequest::InitializeRequest(p), id) => {
            assert_eq!(id, NumberOrString::Number(0));
            assert_eq!(p.client_info.name, "rmcp");
        }
        _ => panic!("expected the opening request"),
    }
}

#[test]
fn peer_results_of_the_wrong_kind_are_unexpected() {
    let r = ServerResult::EmptyResult(EmptyResult {});
    assert!(matches!(r.into_list_tools_result(), Err(ServiceError::UnexpectedResponse)));
    let r = ServerResult::EmptyResult(EmptyResult {});
    assert!(r.into_empty_result().is_ok());
    let r = ServerResult::ListToolsResult(default_list_tools().unwrap());
    assert!(matches!(r.into_empty_result(), Err(ServiceError::UnexpectedResponse)));
}

#[test]
fn server_defaults() {
    assert!(default_ping().is_ok());
    for (r, m) in [
        (default_complete().err(), "completion/complete"),
        (default_get_prompt().err(), "prompts/get"),
        (default_read_resource().err(), "resources/read"),
        (default_call_tool().err(), "tools/call"),
    ] {
        let e = r.unwrap();
        assert_eq!(e.code.0, -32601);
        assert_eq!(e.message, m);
    }
    assert_eq!(default_set_level().unwrap_err().message, "logging/setLevel");
    assert_eq!(default_subscribe().unwrap_err().message, "resources/subscribe");
    assert_eq!(default_unsubscribe().unwrap_err().message, "resources/unsubscribe");
    assert!(default_list_prompts().unwrap().prompts.is_empty());
    assert!(default_list_resources().unwrap().resources.is_empty());
    assert!(default_list_resource_templates().unwrap().resource_templates.is_empty());
    assert!(default_list_tools().unwrap().tools.is_empty());
    let i = default_server_info();
    assert_eq!(i.server_info.name, "rmcp");
    assert!(i.instructions.is_none());
}

#[test]
fn client_defaults() {
    assert_eq!(default_create_message().unwrap_err().message, "sampling/createMessage");
    assert_eq!(default_list_roots().unwrap_err().message, "roots/list");
    assert_eq!(default_client_info().protocol_version.0, "2024-11-05");
}

#[test]
fn handler_outcomes_become_answers() {
    let r = ServerHandlerOutcome::Ping(Ok(())).into_response().unwrap();
    assert!(matches!(r, ServerResult::EmptyResult(_)));
    let r = ServerHandlerOutcome::Initialize(Ok(info())).into_response().unwrap();
    assert!(matches!(r, ServerResult::InitializeResult(_)));
    let e = ServerHandlerOutcome::CallTool(default_call_tool()).into_response().unwrap_err();
    assert_eq!(e.message, "tools/call");
    let r = ClientHandlerOutcome::ListRoots(Ok(ListRootsResult { roots: vec![] })).into_response();
    assert!(matches!(r, Ok(ClientResult::ListRootsResult(_))));
    let r = ClientHandlerOutcome::Ping(Ok(())).into_response();
    assert!(matches!(r, Ok(ClientResult::EmptyResult(_))));
}

#[test]
fn services_hold_their_handler() {
    assert_eq!(ServerHandlerService::new(3u8).handler, 3);
    assert_eq!(ClientHandlerService::new("h").handler, "h");
}

#[test]
fn transport_halves_come_back() {
    let t = Transport::new(1u8, "rx");
    assert_eq!(t.into_parts(), (1u8, "rx"));
}

#[test]
fn child_pipes() {
    assert_eq!(child_pipes_check(true, true), Ok(()));
    assert_eq!(child_pipes_check(false, true), Err("std in was taken"));
    assert_eq!(child_pipes_check(false, false), Err("std in was taken"));
    assert_eq!(child_pipes_check(true, false), Err("std out was taken"));
}
