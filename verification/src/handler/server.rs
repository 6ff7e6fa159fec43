//! The server side of request handling.
//!
//! A server service hands each request to the method of its handler that
//! serves that kind of request, and answers with the method's result,
//! wrapped as the result of that kind. Methods a handler does not provide
//! answer as the `default_*` functions here say.
use vstd::prelude::*;
use vstd::string::StringExecFns;

use crate::error::{Error, ErrorCode, ErrorData, METHOD_NOT_FOUND};
use crate::model::{
    CallToolResult, CompleteResult, EmptyResult, GetPromptResult, Implementation, InitializeResult,
    ListPromptsResult, ListResourceTemplatesResult, ListResourcesResult, ListToolsResult,
    ProtocolVersion, ReadResourceResult, ServerCapabilities, ServerInfo, ServerResult,
};

pub mod tool;

verus! {

/// A server service built from a handler.
#[derive(Debug, Clone, Copy, PartialEq, Eq, Hash, Default)]
pub struct ServerHandlerService<H> {
    pub handler: H,
}

impl<H> ServerHandlerService<H> {
    pub fn new(handler: H) -> (r: Self)
        ensures
            r.handler == handler,
    {
        Self { handler }
    }
}

/// What the handler's method returned, for each kind of client request.
pub enum ServerHandlerOutcome {
    Initialize(Result<InitializeResult, Error>),
    Ping(Result<(), Error>),
    Complete(Result<CompleteResult, Error>),
    SetLevel(Result<(), Error>),
    GetPrompt(Result<GetPromptResult, Error>),
    ListPrompts(Result<ListPromptsResult, Error>),
    ListResources(Result<ListResourcesResult, Error>),
    ListResourceTemplates(Result<ListResourceTemplatesResult, Error>),
    ReadResource(Result<ReadResourceResult, Error>),
    Subscribe(Result<(), Error>),
    Unsubscribe(Result<(), Error>),
    CallTool(Result<CallToolResult, Error>),
    ListTools(Result<ListToolsResult, Error>),
}

/// The answer to a request whose method returned nothing.
pub open spec fn empty_answer(r: Result<(), Error>) -> Result<ServerResult, Error> {
    match r {
        Ok(_) => Ok(ServerResult::EmptyResult(EmptyResult {})),
        Err(e) => Err(e),
    }
}

/// The answer that a method's return value makes.
pub open spec fn spec_server_answer(o: ServerHandlerOutcome) -> Result<ServerResult, Error> {
    match o {
        ServerHandlerOutcome::Initialize(r) => match r {
            Ok(v) => Ok(ServerResult::InitializeResult(v)),
            Err(e) => Err(e),
        },
        ServerHandlerOutcome::Ping(r) => empty_answer(r),
        ServerHandlerOutcome::Complete(r) => match r {
            Ok(v) => Ok(ServerResult::CompleteResult(v)),
            Err(e) => Err(e),
        },
        ServerHandlerOutcome::SetLevel(r) => empty_answer(r),
        ServerHandlerOutcome::GetPrompt(r) => match r {
            Ok(v) => Ok(ServerResult::GetPromptResult(v)),
            Err(e) => Err(e),
        },
        ServerHandlerOutcome::ListPrompts(r) => match r {
            Ok(v) => Ok(ServerResult::ListPromptsResult(v)),
            Err(e) => Err(e),
        },
        ServerHandlerOutcome::ListResources(r) => match r {
            Ok(v) => Ok(ServerResult::ListResourcesResult(v)),
            Err(e) => Err(e),
        },
        ServerHandlerOutcome::ListResourceTemplates(r) => match r {
            Ok(v) => Ok(ServerResult::ListResourceTemplatesResult(v)),
            Err(e) => Err(e),
        },
        ServerHandlerOutcome::ReadResource(r) => match r {
            Ok(v) => Ok(ServerResult::ReadResourceResult(v)),
            Err(e) => Err(e),
        },
        ServerHandlerOutcome::Subscribe(r) => empty_answer(r),
        ServerHandlerOutcome::Unsubscribe(r) => empty_answer(r),
        ServerHandlerOutcome::CallTool(r) => match r {
            Ok(v) => Ok(ServerResult::CallToolResult(v)),
            Err(e) => Err(e),
        },
        ServerHandlerOutcome::ListTools(r) => match r {
            Ok(v) => Ok(ServerResult::ListToolsResult(v)),
            Err(e) => Err(e),
        },
    }
}

fn empty_result(r: Result<(), Error>) -> (a: Result<ServerResult, Error>)
    ensures
        a == empty_answer(r),
{
    match r {
        Ok(_) => Ok(ServerResult::EmptyResult(EmptyResult {})),
        Err(e) => Err(e),
    }
}

impl ServerHandlerOutcome {
    /// The answer to the request: the method's result, as the result of its
    /// kind (nothing becomes the empty result), or its error.
    pub fn into_response(self) -> (r: Result<ServerResult, Error>)
        ensures
            r == spec_server_answer(self),
    {
        match self {
            ServerHandlerOutcome::Initialize(r) => match r {
                Ok(v) => Ok(ServerResult::InitializeResult(v)),
                Err(e) => Err(e),
            },
            ServerHandlerOutcome::Ping(r) => empty_result(r),
            ServerHandlerOutcome::Complete(r) => match r {
                Ok(v) => Ok(ServerResult::CompleteResult(v)),
                Err(e) => Err(e),
            },
            ServerHandlerOutcome::SetLevel(r) => empty_result(r),
            ServerHandlerOutcome::GetPrompt(r) => match r {
                Ok(v) => Ok(ServerResult::GetPromptResult(v)),
                Err(e) => Err(e),
            },
            ServerHandlerOutcome::ListPrompts(r) => match r {
                Ok(v) => Ok(ServerResult::ListPromptsResult(v)),
                Err(e) => Err(e),
            },
            ServerHandlerOutcome::ListResources(r) => match r {
                Ok(v) => Ok(ServerResult::ListResourcesResult(v)),
                Err(e) => Err(e),
            },
            ServerHandlerOutcome::ListResourceTemplates(r) => match r {
                Ok(v) => Ok(ServerResult::ListResourceTemplatesResult(v)),
                Err(e) => Err(e),
            },
            ServerHandlerOutcome::ReadResource(r) => match r {
                Ok(v) => Ok(ServerResult::ReadResourceResult(v)),
                Err(e) => Err(e),
            },
            ServerHandlerOutcome::Subscribe(r) => empty_result(r),
            ServerHandlerOutcome::Unsubscribe(r) => empty_result(r),
            ServerHandlerOutcome::CallTool(r) => match r {
                Ok(v) => Ok(ServerResult::CallToolResult(v)),
                Err(e) => Err(e),
            },
            ServerHandlerOutcome::ListTools(r) => match r {
                Ok(v) => Ok(ServerResult::ListToolsResult(v)),
                Err(e) => Err(e),
            },
        }
    }
}

/// A method's result is the answer, as the result of its kind and exactly
/// as the method returned it; a method that returned nothing is answered
/// with the empty result.
pub proof fn law_server_answer_keeps_result(o: ServerHandlerOutcome)
    ensures
        o matches ServerHandlerOutcome::Initialize(Ok(v)) ==> spec_server_answer(o) == Ok::<
            ServerResult,
            Error,
        >(ServerResult::InitializeResult(v)),
        o matches ServerHandlerOutcome::Complete(Ok(v)) ==> spec_server_answer(o) == Ok::<
            ServerResult,
            Error,
        >(ServerResult::CompleteResult(v)),
        o matches ServerHandlerOutcome::GetPrompt(Ok(v)) ==> spec_server_answer(o) == Ok::<
            ServerResult,
            Error,
        >(ServerResult::GetPromptResult(v)),
        o matches ServerHandlerOutcome::ListPrompts(Ok(v)) ==> spec_server_answer(o) == Ok::<
            ServerResult,
            Error,
        >(ServerResult::ListPromptsResult(v)),
        o matches ServerHandlerOutcome::ListResources(Ok(v)) ==> spec_server_answer(o) == Ok::<
            ServerResult,
            Error,
        >(ServerResult::ListResourcesResult(v)),
        o matches ServerHandlerOutcome::ListResourceTemplates(Ok(v)) ==> spec_server_answer(o) == Ok::<
            ServerResult,
            Error,
        >(ServerResult::ListResourceTemplatesResult(v)),
        o matches ServerHandlerOutcome::ReadResource(Ok(v)) ==> spec_server_answer(o) == Ok::<
            ServerResult,
            Error,
        >(ServerResult::ReadResourceResult(v)),
        o matches ServerHandlerOutcome::CallTool(Ok(v)) ==> spec_server_answer(o) == Ok::<
            ServerResult,
            Error,
        >(ServerResult::CallToolResult(v)),
        o matches ServerHandlerOutcome::ListTools(Ok(v)) ==> spec_server_answer(o) == Ok::<
            ServerResult,
            Error,
        >(ServerResult::ListToolsResult(v)),
        o matches ServerHandlerOutcome::Ping(Ok(_)) ==> spec_server_answer(o) == Ok::<
            ServerResult,
            Error,
        >(ServerResult::EmptyResult(EmptyResult {})),
        o matches ServerHandlerOutcome::SetLevel(Ok(_)) ==> spec_server_answer(o) == Ok::<
            ServerResult,
            Error,
        >(ServerResult::EmptyResult(EmptyResult {})),
        o matches ServerHandlerOutcome::Subscribe(Ok(_)) ==> spec_server_answer(o) == Ok::<
            ServerResult,
            Error,
        >(ServerResult::EmptyResult(EmptyResult {})),
        o matches ServerHandlerOutcome::Unsubscribe(Ok(_)) ==> spec_server_answer(o) == Ok::<
            ServerResult,
            Error,
        >(ServerResult::EmptyResult(EmptyResult {})),
{
}

/// A method's error is the answer, unchanged, whatever the kind.
pub proof fn law_server_answer_passes_error(o: ServerHandlerOutcome)
    ensures
        o matches ServerHandlerOutcome::Initialize(Err(e)) ==> spec_server_answer(o) == Err::<
            ServerResult,
            Error,
        >(e),
        o matches ServerHandlerOutcome::Complete(Err(e)) ==> spec_server_answer(o) == Err::<
            ServerResult,
            Error,
        >(e),
        o matches ServerHandlerOutcome::GetPrompt(Err(e)) ==> spec_server_answer(o) == Err::<
            ServerResult,
            Error,
        >(e),
        o matches ServerHandlerOutcome::ListPrompts(Err(e)) ==> spec_server_answer(o) == Err::<
            ServerResult,
            Error,
        >(e),
        o matches ServerHandlerOutcome::ListResources(Err(e)) ==> spec_server_answer(o) == Err::<
            ServerResult,
            Error,
        >(e),
        o matches ServerHandlerOutcome::ListResourceTemplates(Err(e)) ==> spec_server_answer(o) == Err::<
            ServerResult,
            Error,
        >(e),
        o matches ServerHandlerOutcome::ReadResource(Err(e)) ==> spec_server_answer(o) == Err::<
            ServerResult,
            Error,
        >(e),
        o matches ServerHandlerOutcome::CallTool(Err(e)) ==> spec_server_answer(o) == Err::<
            ServerResult,
            Error,
        >(e),
        o matches ServerHandlerOutcome::ListTools(Err(e)) ==> spec_server_answer(o) == Err::<
            ServerResult,
            Error,
        >(e),
        o matches ServerHandlerOutcome::Ping(Err(e)) ==> spec_server_answer(o) == Err::<
            ServerResult,
            Error,
        >(e),
        o matches ServerHandlerOutcome::SetLevel(Err(e)) ==> spec_server_answer(o) == Err::<
            ServerResult,
            Error,
        >(e),
        o matches ServerHandlerOutcome::Subscribe(Err(e)) ==> spec_server_answer(o) == Err::<
            ServerResult,
            Error,
        >(e),
        o matches ServerHandlerOutcome::Unsubscribe(Err(e)) ==> spec_server_answer(o) == Err::<
            ServerResult,
            Error,
        >(e),
{
}

/// The error of a method the handler does not serve.
pub open spec fn not_served(e: ErrorData, method: Seq<char>) -> bool {
    e.code == ErrorCode(METHOD_NOT_FOUND) && e.message@ == method && e.data is None
}

/// The version of the protocol that this library speaks.
pub fn latest_protocol_version() -> (r: ProtocolVersion)
    ensures
        r.0@ == "2024-11-05"@,
{
    proof {
        reveal_strlit("2024-11-05");
    }
    ProtocolVersion(String::from_str("2024-11-05"))
}

/// The name and version that this library gives itself.
pub fn library_implementation() -> (r: Implementation)
    ensures
        r.name@ == "rmcp"@,
        r.version@ == "0.1.0"@,
{
    proof {
        reveal_strlit("rmcp");
        reveal_strlit("0.1.0");
    }
    Implementation { name: String::from_str("rmcp"), version: String::from_str("0.1.0") }
}

/// What a server says of itself unless its handler says more: the latest
/// protocol version, no capability, this library's name and version, no
/// instructions.
pub fn default_server_info() -> (r: ServerInfo)
    ensures
        r.protocol_version.0@ == "2024-11-05"@,
        r.capabilities.experimental is None,
        r.capabilities.logging is None,
        r.capabilities.prompts is None,
        r.capabilities.resources is None,
        r.capabilities.tools is None,
        r.server_info.name@ == "rmcp"@,
        r.server_info.version@ == "0.1.0"@,
        r.instructions is None,
{
    InitializeResult {
        protocol_version: latest_protocol_version(),
        capabilities: ServerCapabilities {
            experimental: None,
            logging: None,
            prompts: None,
            resources: None,
            tools: None,
        },
        server_info: library_implementation(),
        instructions: None,
    }
}

/// A ping is answered.
pub fn default_ping() -> (r: Result<(), Error>)
    ensures
        r is Ok,
{
    Ok(())
}

pub fn default_complete() -> (r: Result<CompleteResult, Error>)
    ensures
        r matches Err(e) && not_served(e, "completion/complete"@),
{
    proof {
        reveal_strlit("completion/complete");
    }
    Err(ErrorData::method_not_found("completion/complete"))
}

pub fn default_set_level() -> (r: Result<(), Error>)
    ensures
        r matches Err(e) && not_served(e, "logging/setLevel"@),
{
    proof {
        reveal_strlit("logging/setLevel");
    }
    Err(ErrorData::method_not_found("logging/setLevel"))
}

pub fn default_get_prompt() -> (r: Result<GetPromptResult, Error>)
    ensures
        r matches Err(e) && not_served(e, "prompts/get"@),
{
    proof {
        reveal_strlit("prompts/get");
    }
    Err(ErrorData::method_not_found("prompts/get"))
}

/// No prompt.
pub fn default_list_prompts() -> (r: Result<ListPromptsResult, Error>)
    ensures
        r matches Ok(l) && l.next_cursor is None && l.prompts@.len() == 0,
{
    Ok(ListPromptsResult { next_cursor: None, prompts: Vec::new() })
}

/// No resource.
pub fn default_list_resources() -> (r: Result<ListResourcesResult, Error>)
    ensures
        r matches Ok(l) && l.next_cursor is None && l.resources@.len() == 0,
{
    Ok(ListResourcesResult { next_cursor: None, resources: Vec::new() })
}

/// No resource template.
pub fn default_list_resource_templates() -> (r: Result<ListResourceTemplatesResult, Error>)
    ensures
        r matches Ok(l) && l.next_cursor is None && l.resource_templates@.len() == 0,
{
    Ok(ListResourceTemplatesResult { next_cursor: None, resource_templates: Vec::new() })
}

pub fn default_read_resource() -> (r: Result<ReadResourceResult, Error>)
    ensures
        r matches Err(e) && not_served(e, "resources/read"@),
{
    proof {
        reveal_strlit("resources/read");
    }
    Err(ErrorData::method_not_found("resources/read"))
}

pub fn default_subscribe() -> (r: Result<(), Error>)
    ensures
        r matches Err(e) && not_served(e, "resources/subscribe"@),
{
    proof {
        reveal_strlit("resources/subscribe");
    }
    Err(ErrorData::method_not_found("resources/subscribe"))
}

pub fn default_unsubscribe() -> (r: Result<(), Error>)
    ensures
        r matches Err(e) && not_served(e, "resources/unsubscribe"@),
{
    proof {
        reveal_strlit("resources/unsubscribe");
    }
    Err(ErrorData::method_not_found("resources/unsubscribe"))
}

pub fn default_call_tool() -> (r: Result<CallToolResult, Error>)
    ensures
        r matches Err(e) && not_served(e, "tools/call"@),
{
    proof {
        reveal_strlit("tools/call");
    }
    Err(ErrorData::method_not_found("tools/call"))
}

/// No tool.
pub fn default_list_tools() -> (r: Result<ListToolsResult, Error>)
    ensures
        r matches Ok(l) && l.next_cursor is None && l.tools@.len() == 0,
{
    Ok(ListToolsResult { next_cursor: None, tools: Vec::new() })
}

} // verus!
