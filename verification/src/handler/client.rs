//! The client side of request handling.
//!
//! A client service hands each request of the server to the method of its
//! handler that serves that kind, and answers with the method's result,
//! wrapped as the result of that kind. Methods a handler does not provide
//! answer as the `default_*` functions here say.
use vstd::prelude::*;

use super::server::{library_implementation, latest_protocol_version, not_served};
use crate::error::{Error, ErrorData};
use crate::model::{
    ClientCapabilities, ClientInfo, ClientResult, CreateMessageResult, EmptyResult,
    InitializeRequestParam, ListRootsResult,
};

verus! {

/// A client service built from a handler.
#[derive(Debug, Clone, Copy, PartialEq, Eq, Hash, Default)]
pub struct ClientHandlerService<H> {
    pub handler: H,
}

impl<H> ClientHandlerService<H> {
    pub fn new(handler: H) -> (r: Self)
        ensures
            r.handler == handler,
    {
        Self { handler }
    }
}

/// What the handler's method returned, for each kind of server request.
pub enum ClientHandlerOutcome {
    Ping(Result<(), Error>),
    CreateMessage(Result<CreateMessageResult, Error>),
    ListRoots(Result<ListRootsResult, Error>),
}

/// The answer that a method's return value makes.
pub open spec fn spec_client_answer(o: ClientHandlerOutcome) -> Result<ClientResult, Error> {
    match o {
        ClientHandlerOutcome::Ping(r) => match r {
            Ok(_) => Ok(ClientResult::EmptyResult(EmptyResult {})),
            Err(e) => Err(e),
        },
        ClientHandlerOutcome::CreateMessage(r) => match r {
            Ok(v) => Ok(ClientResult::CreateMessageResult(v)),
            Err(e) => Err(e),
        },
        ClientHandlerOutcome::ListRoots(r) => match r {
            Ok(v) => Ok(ClientResult::ListRootsResult(v)),
            Err(e) => Err(e),
        },
    }
}

impl ClientHandlerOutcome {
    /// The answer to the request: the method's result, as the result of its
    /// kind (nothing becomes the empty result), or its error.
    pub fn into_response(self) -> (r: Result<ClientResult, Error>)
        ensures
            r == spec_client_answer(self),
    {
        match self {
            ClientHandlerOutcome::Ping(r) => match r {
                Ok(_) => Ok(ClientResult::EmptyResult(EmptyResult {})),
                Err(e) => Err(e),
            },
            ClientHandlerOutcome::CreateMessage(r) => match r {
                Ok(v) => Ok(ClientResult::CreateMessageResult(v)),
                Err(e) => Err(e),
            },
            ClientHandlerOutcome::ListRoots(r) => match r {
                Ok(v) => Ok(ClientResult::ListRootsResult(v)),
                Err(e) => Err(e),
            },
        }
    }
}

/// A method's result is the answer, as the result of its kind and exactly
/// as the method returned it; a ping is answered with the empty result.
pub proof fn law_client_answer_keeps_result(o: ClientHandlerOutcome)
    ensures
        o matches ClientHandlerOutcome::Ping(Ok(_)) ==> spec_client_answer(o) == Ok::<
            ClientResult,
            Error,
        >(ClientResult::EmptyResult(EmptyResult {})),
        o matches ClientHandlerOutcome::CreateMessage(Ok(v)) ==> spec_client_answer(o) == Ok::<
            ClientResult,
            Error,
        >(ClientResult::CreateMessageResult(v)),
        o matches ClientHandlerOutcome::ListRoots(Ok(v)) ==> spec_client_answer(o) == Ok::<
            ClientResult,
            Error,
        >(ClientResult::ListRootsResult(v)),
{
}

/// A method's error is the answer, unchanged, whatever the kind.
pub proof fn law_client_answer_passes_error(o: ClientHandlerOutcome)
    ensures
        o matches ClientHandlerOutcome::Ping(Err(e)) ==> spec_client_answer(o) == Err::<
            ClientResult,
            Error,
        >(e),
        o matches ClientHandlerOutcome::CreateMessage(Err(e)) ==> spec_client_answer(o) == Err::<
            ClientResult,
            Error,
        >(e),
        o matches ClientHandlerOutcome::ListRoots(Err(e)) ==> spec_client_answer(o) == Err::<
            ClientResult,
            Error,
        >(e),
{
}

/// What a client says of itself unless its handler says more: the latest
/// protocol version, no capability, this library's name and version.
pub fn default_client_info() -> (r: ClientInfo)
    ensures
        r.protocol_version.0@ == "2024-11-05"@,
        r.capabilities.experimental is None,
        r.capabilities.roots is None,
        r.capabilities.sampling is None,
        r.client_info.name@ == "rmcp"@,
        r.client_info.version@ == "0.1.0"@,
{
    InitializeRequestParam {
        protocol_version: latest_protocol_version(),
        capabilities: ClientCapabilities { experimental: None, roots: None, sampling: None },
        client_info: library_implementation(),
    }
}

pub fn default_create_message() -> (r: Result<CreateMessageResult, Error>)
    ensures
        r matches Err(e) && not_served(e, "sampling/createMessage"@),
{
    proof {
        reveal_strlit("sampling/createMessage");
    }
    Err(ErrorData::method_not_found("sampling/createMessage"))
}

pub fn default_list_roots() -> (r: Result<ListRootsResult, Error>)
    ensures
        r matches Err(e) && not_served(e, "roots/list"@),
{
    proof {
        reveal_strlit("roots/list");
    }
    Err(ErrorData::method_not_found("roots/list"))
}

} // verus!
