//! The client side: opening a session, and reading the results of the
//! requests that a client sends.
use vstd::prelude::*;

use super::ServiceError;
use crate::error::ErrorData;
use crate::model::{
    CallToolResult, ClientInfo, ClientNotification, ClientRequest, CompleteResult,
    GetPromptResult, InitializeResult, ListPromptsResult, ListResourceTemplatesResult,
    ListResourcesResult, ListToolsResult, Message, ReadResourceResult, RequestId, ServerNotification,
    ServerRequest, ServerResult,
};

verus! {

/// The messages a server may send to a client.
pub type ServerMessage = Message<ServerRequest, ServerResult, ServerNotification>;

/// The messages a client may send to a server.
pub type ClientMessage = Message<ClientRequest, super::super::model::ClientResult, ClientNotification>;

/// Why the opening of a session failed on the client side.
#[derive(Debug)]
pub enum HandshakeError {
    /// The input ended before the server answered.
    NoResponse,
    /// The server's first message was not the answer to the opening.
    NotAResult,
    /// The server answered another request than the opening.
    ConflictingId,
    /// The server refused the opening with an error.
    Refused(ErrorData),
    /// The server answered with a result of another kind.
    WrongResult,
}

impl HandshakeError {
    /// Whether the failure is that the input ended (else the data was wrong,
    /// or the server refused).
    pub fn is_unexpected_eof(&self) -> (r: bool)
        ensures
            r == (self is NoResponse),
    {
        match self {
            HandshakeError::NoResponse => true,
            _ => false,
        }
    }

    /// The text that describes the failure; none for a refusal, which the
    /// server's own error describes.
    pub fn description(&self) -> (r: Option<&'static str>)
        ensures
            self is NoResponse ==> (r matches Some(d) && d@ == "expect initialize response"@),
            self is NotAResult ==> (r matches Some(d) && d@ == "expect initialize result"@),
            self is WrongResult ==> (r matches Some(d) && d@ == "expect initialize result"@),
            self is ConflictingId ==> (r matches Some(d) && d@ == "conflict initialize response id"@),
            self is Refused ==> r is None,
    {
        proof {
            reveal_strlit("expect initialize response");
            reveal_strlit("expect initialize result");
            reveal_strlit("conflict initialize response id");
        }
        match self {
            HandshakeError::NoResponse => Some("expect initialize response"),
            HandshakeError::NotAResult => Some("expect initialize result"),
            HandshakeError::ConflictingId => Some("conflict initialize response id"),
            HandshakeError::Refused(_) => None,
            HandshakeError::WrongResult => Some("expect initialize result"),
        }
    }
}

/// The request that opens a session, under identifier `id`.
pub fn initialize_request(info: ClientInfo, id: RequestId) -> (r: ClientMessage)
    ensures
        r == Message::<ClientRequest, super::super::model::ClientResult, ClientNotification>::Request(
            ClientRequest::InitializeRequest(info),
            id,
        ),
{
    Message::Request(ClientRequest::InitializeRequest(info), id)
}

/// The notification that tells the server the session is open.
pub fn initialized_notification() -> (r: ClientMessage)
    ensures
        r == Message::<ClientRequest, super::super::model::ClientResult, ClientNotification>::Notification(
            ClientNotification::InitializedNotification,
        ),
{
    Message::Notification(ClientNotification::InitializedNotification)
}

/// What the server's first message, if any, tells of the opening that was
/// sent under `sent`.
pub open spec fn spec_check_initialize_response(
    sent: RequestId,
    received: Option<ServerMessage>,
) -> Result<InitializeResult, HandshakeError> {
    match received {
        None => Err(HandshakeError::NoResponse),
        Some(m) => match m {
            Message::Response(v, id) => if id@ != sent@ {
                Err(HandshakeError::ConflictingId)
            } else {
                match v {
                    ServerResult::InitializeResult(r) => Ok(r),
                    _ => Err(HandshakeError::WrongResult),
                }
            },
            Message::Error(e, id) => if id@ != sent@ {
                Err(HandshakeError::ConflictingId)
            } else {
                Err(HandshakeError::Refused(e))
            },
            _ => Err(HandshakeError::NotAResult),
        },
    }
}

/// Checks the server's first message: it must be the answer to the opening
/// that was sent under `sent`, and a result of the opening.
pub fn check_initialize_response(sent: &RequestId, received: Option<ServerMessage>) -> (r: Result<
    InitializeResult,
    HandshakeError,
>)
    ensures
        r == spec_check_initialize_response(*sent, received),
{
    let m = match received {
        None => return Err(HandshakeError::NoResponse),
        Some(m) => m,
    };
    let (response, response_id) = match m.into_result() {
        None => return Err(HandshakeError::NotAResult),
        Some(pair) => pair,
    };
    if *sent != response_id {
        return Err(HandshakeError::ConflictingId);
    }
    match response {
        Err(e) => Err(HandshakeError::Refused(e)),
        Ok(ServerResult::InitializeResult(r)) => Ok(r),
        Ok(_) => Err(HandshakeError::WrongResult),
    }
}

impl ServerResult {
    pub fn into_complete_result(self) -> (r: Result<CompleteResult, ServiceError>)
        ensures
            self matches ServerResult::CompleteResult(v) ==> r == Ok::<CompleteResult, ServiceError>(v),
            !(self is CompleteResult) ==> r matches Err(ServiceError::UnexpectedResponse),
    {
        match self {
            ServerResult::CompleteResult(v) => Ok(v),
            _ => Err(ServiceError::UnexpectedResponse),
        }
    }

    pub fn into_get_prompt_result(self) -> (r: Result<GetPromptResult, ServiceError>)
        ensures
            self matches ServerResult::GetPromptResult(v) ==> r == Ok::<GetPromptResult, ServiceError>(v),
            !(self is GetPromptResult) ==> r matches Err(ServiceError::UnexpectedResponse),
    {
        match self {
            ServerResult::GetPromptResult(v) => Ok(v),
            _ => Err(ServiceError::UnexpectedResponse),
        }
    }

    pub fn into_list_prompts_result(self) -> (r: Result<ListPromptsResult, ServiceError>)
        ensures
            self matches ServerResult::ListPromptsResult(v) ==> r == Ok::<ListPromptsResult, ServiceError>(v),
            !(self is ListPromptsResult) ==> r matches Err(ServiceError::UnexpectedResponse),
    {
        match self {
            ServerResult::ListPromptsResult(v) => Ok(v),
            _ => Err(ServiceError::UnexpectedResponse),
        }
    }

    pub fn into_list_resources_result(self) -> (r: Result<ListResourcesResult, ServiceError>)
        ensures
            self matches ServerResult::ListResourcesResult(v) ==> r == Ok::<ListResourcesResult, ServiceError>(v),
            !(self is ListResourcesResult) ==> r matches Err(ServiceError::UnexpectedResponse),
    {
        match self {
            ServerResult::ListResourcesResult(v) => Ok(v),
            _ => Err(ServiceError::UnexpectedResponse),
        }
    }

    pub fn into_list_resource_templates_result(self) -> (r: Result<ListResourceTemplatesResult, ServiceError>)
        ensures
            self matches ServerResult::ListResourceTemplatesResult(v) ==> r == Ok::<ListResourceTemplatesResult, ServiceError>(v),
            !(self is ListResourceTemplatesResult) ==> r matches Err(ServiceError::UnexpectedResponse),
    {
        match self {
            ServerResult::ListResourceTemplatesResult(v) => Ok(v),
            _ => Err(ServiceError::UnexpectedResponse),
        }
    }

    pub fn into_read_resource_result(self) -> (r: Result<ReadResourceResult, ServiceError>)
        ensures
            self matches ServerResult::ReadResourceResult(v) ==> r == Ok::<ReadResourceResult, ServiceError>(v),
            !(self is ReadResourceResult) ==> r matches Err(ServiceError::UnexpectedResponse),
    {
        match self {
            ServerResult::ReadResourceResult(v) => Ok(v),
            _ => Err(ServiceError::UnexpectedResponse),
        }
    }

    pub fn into_call_tool_result(self) -> (r: Result<CallToolResult, ServiceError>)
        ensures
            self matches ServerResult::CallToolResult(v) ==> r == Ok::<CallToolResult, ServiceError>(v),
            !(self is CallToolResult) ==> r matches Err(ServiceError::UnexpectedResponse),
    {
        match self {
            ServerResult::CallToolResult(v) => Ok(v),
            _ => Err(ServiceError::UnexpectedResponse),
        }
    }

    pub fn into_list_tools_result(self) -> (r: Result<ListToolsResult, ServiceError>)
        ensures
            self matches ServerResult::ListToolsResult(v) ==> r == Ok::<ListToolsResult, ServiceError>(v),
            !(self is ListToolsResult) ==> r matches Err(ServiceError::UnexpectedResponse),
    {
        match self {
            ServerResult::ListToolsResult(v) => Ok(v),
            _ => Err(ServiceError::UnexpectedResponse),
        }
    }

    /// The answer to a request that returns nothing.
    pub fn into_empty_result(self) -> (r: Result<(), ServiceError>)
        ensures
            self is EmptyResult ==> r == Ok::<(), ServiceError>(()),
            !(self is EmptyResult) ==> r matches Err(ServiceError::UnexpectedResponse),
    {
        match self {
            ServerResult::EmptyResult(_) => Ok(()),
            _ => Err(ServiceError::UnexpectedResponse),
        }
    }
}

/// A session opens only on the result of the opening itself: when the
/// check succeeds, the message was a response, under the identifier the
/// opening was sent with, holding that result.
pub proof fn law_open_only_on_own_result(
    sent: RequestId,
    received: Option<ServerMessage>,
    r: InitializeResult,
)
    requires
        spec_check_initialize_response(sent, received) == Ok::<InitializeResult, HandshakeError>(r),
    ensures
        received matches Some(Message::Response(ServerResult::InitializeResult(v), id)) && v == r
            && id@ == sent@,
{
}

/// An answer under another identifier is a conflict, whatever it holds.
pub proof fn law_other_id_conflicts(sent: RequestId, received: ServerMessage)
    requires
        (received matches Message::Response(_, id) && id@ != sent@) || (received matches Message::Error(
            _,
            id,
        ) && id@ != sent@),
    ensures
        spec_check_initialize_response(sent, Some(received)) == Err::<
            InitializeResult,
            HandshakeError,
        >(HandshakeError::ConflictingId),
{
}

/// The result of the opening, under the identifier it was sent with, opens
/// the session with that result, whatever it holds.
pub proof fn law_own_result_opens(sent: RequestId, r: InitializeResult, id: RequestId)
    requires
        id@ == sent@,
    ensures
        spec_check_initialize_response(
            sent,
            Some(Message::Response(ServerResult::InitializeResult(r), id)),
        ) == Ok::<InitializeResult, HandshakeError>(r),
{
}

/// An error under the opening's identifier refuses the session with that
/// error.
pub proof fn law_own_error_refuses(sent: RequestId, e: ErrorData, id: RequestId)
    requires
        id@ == sent@,
    ensures
        spec_check_initialize_response(sent, Some(Message::Error(e, id))) == Err::<
            InitializeResult,
            HandshakeError,
        >(HandshakeError::Refused(e)),
{
}

/// No message refuses the session as unanswered; a request or notification
/// in place of the answer, as no result; an answer under the opening's
/// identifier that holds another kind of result, as the wrong result.
pub proof fn law_other_answers_refuse(sent: RequestId, received: Option<ServerMessage>)
    ensures
        received is None ==> spec_check_initialize_response(sent, received) == Err::<
            InitializeResult,
            HandshakeError,
        >(HandshakeError::NoResponse),
        (received matches Some(Message::Request(..))) || (received matches Some(
            Message::Notification(_),
        )) ==> spec_check_initialize_response(sent, received) == Err::<
            InitializeResult,
            HandshakeError,
        >(HandshakeError::NotAResult),
        (received matches Some(Message::Response(v, id)) && id@ == sent@ && !(v is InitializeResult))
            ==> spec_check_initialize_response(sent, received) == Err::<
            InitializeResult,
            HandshakeError,
        >(HandshakeError::WrongResult),
{
}

} // verus!
