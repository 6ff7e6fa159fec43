//! The running side of a session: roles, errors, request identifiers, and
//! the bookkeeping that pairs requests with their answers.
use vstd::prelude::*;

use crate::error::ErrorData;
use crate::model::{
    CancellationNotice, ClientInfo, ClientNotification, ClientRequest, ClientResult, RequestId,
    ServerInfo, ServerNotification, ServerRequest, ServerResult,
};

pub mod client;
pub mod serve;

verus! {

#[verifier::external_type_specification]
#[verifier::external_body]
pub struct ExIoError(std::io::Error);

/// Why a request sent to the peer did not get its result.
#[derive(Debug)]
#[non_exhaustive]
pub enum ServiceError {
    /// The peer answered with an error.
    McpError(ErrorData),
    /// The message could not be sent, or the session is gone.
    Transport(std::io::Error),
    /// The peer answered with a result of another kind than was asked for.
    UnexpectedResponse,
    /// The request was cancelled.
    Cancelled { reason: Option<String> },
}

/// One side of a session, and the kinds of message that it sends and
/// receives.
pub trait ServiceRole: Sized {
    type Req;
    type Resp;
    type Not: CancellationNotice;
    type PeerReq;
    type PeerResp;
    type PeerNot: CancellationNotice;
    type Info;
    type PeerInfo;

    const IS_CLIENT: bool;
}

#[derive(Debug, Clone, Copy, Default, PartialEq, Eq, Structural)]
pub struct RoleClient;

impl ServiceRole for RoleClient {
    type Req = ClientRequest;
    type Resp = ClientResult;
    type Not = ClientNotification;
    type PeerReq = ServerRequest;
    type PeerResp = ServerResult;
    type PeerNot = ServerNotification;
    type Info = ClientInfo;
    type PeerInfo = ServerInfo;

    const IS_CLIENT: bool = true;
}

#[derive(Debug, Clone, Copy, Default, PartialEq, Eq, Structural)]
pub struct RoleServer;

impl ServiceRole for RoleServer {
    type Req = ServerRequest;
    type Resp = ServerResult;
    type Not = ServerNotification;
    type PeerReq = ClientRequest;
    type PeerResp = ClientResult;
    type PeerNot = ClientNotification;
    type Info = ServerInfo;
    type PeerInfo = ClientInfo;

    const IS_CLIENT: bool = false;
}

/// Hands out the identifiers of the requests that a side sends.
pub trait RequestIdProvider {
    fn next_request_id(&self) -> RequestId;
}

/// Numbers requests 0, 1, 2, ... from a shared counter.
#[derive(Debug)]
pub struct AtomicU32RequestIdProvider {
    id: std::sync::atomic::AtomicU32,
}

impl Default for AtomicU32RequestIdProvider {
    fn default() -> (r: Self) {
        AtomicU32RequestIdProvider { id: std::sync::atomic::AtomicU32::new(0) }
    }
}

impl RequestIdProvider for AtomicU32RequestIdProvider {
    /// A numeric identifier, taken from the counter, which then moves on by
    /// one. Which number comes out depends on the calls before, which may
    /// run on other threads, so no contract says which.
    fn next_request_id(&self) -> (r: RequestId)
        ensures
            r is Number,
    {
        RequestId::Number(self.id.fetch_add(1, std::sync::atomic::Ordering::SeqCst))
    }
}

/// Why a running service stopped.
#[derive(Debug, Clone, Copy, PartialEq, Eq, Hash, Structural)]
pub enum QuitReason {
    Cancelled,
    Closed,
}

} // verus!
