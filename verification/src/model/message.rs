//! Messages, and the notifications that each side sends.
use vstd::prelude::*;

use super::id::{ProgressToken, RequestId};
use crate::error::ErrorData;

verus! {

/// A message between the two sides: a request with its identifier, the
/// response or error that answers the request of that identifier, or a
/// notification.
#[derive(Debug)]
pub enum Message<Req, Resp, Noti> {
    Request(Req, RequestId),
    Response(Resp, RequestId),
    Notification(Noti),
    Error(ErrorData, RequestId),
}

impl<Req, Resp, Noti> Message<Req, Resp, Noti> {
    /// The answer that this message carries, with the identifier of the
    /// request it answers; none for a request or a notification.
    pub fn into_result(self) -> (r: Option<(Result<Resp, ErrorData>, RequestId)>)
        ensures
            r == (match self {
                Message::Response(resp, id) => Some((Ok(resp), id)),
                Message::Error(e, id) => Some((Err(e), id)),
                _ => None,
            }),
    {
        match self {
            Message::Response(resp, id) => Some((Ok(resp), id)),
            Message::Error(e, id) => Some((Err(e), id)),
            _ => None,
        }
    }
}

/// The request that a cancellation is about, and why.
#[derive(Debug)]
pub struct CancelledNotificationParam {
    pub request_id: RequestId,
    pub reason: Option<String>,
}

impl Clone for CancelledNotificationParam {
    fn clone(&self) -> (r: Self)
        ensures
            r == *self,
    {
        let reason = match &self.reason {
            Some(s) => Some(s.clone()),
            None => None,
        };
        CancelledNotificationParam { request_id: self.request_id.clone(), reason }
    }
}

#[derive(Debug)]
pub struct ProgressNotificationParam {
    pub progress_token: ProgressToken,
    pub progress: u32,
    pub total: Option<u32>,
}

#[derive(Debug, Clone, Copy, PartialEq, Eq, Structural)]
pub enum LoggingLevel {
    Debug,
    Info,
    Notice,
    Warning,
    Error,
    Critical,
    Alert,
    Emergency,
}

#[derive(Debug)]
pub struct LoggingMessageNotificationParam {
    pub level: LoggingLevel,
    pub logger: Option<String>,
    pub data: serde_json::Value,
}

#[derive(Debug)]
pub struct ResourceUpdatedNotificationParam {
    pub uri: String,
}

/// The notifications that a client sends.
#[derive(Debug)]
pub enum ClientNotification {
    CancelledNotification(CancelledNotificationParam),
    ProgressNotification(ProgressNotificationParam),
    InitializedNotification,
    RootsListChangedNotification,
}

/// The notifications that a server sends.
#[derive(Debug)]
pub enum ServerNotification {
    CancelledNotification(CancelledNotificationParam),
    ProgressNotification(ProgressNotificationParam),
    LoggingMessageNotification(LoggingMessageNotificationParam),
    ResourceUpdatedNotification(ResourceUpdatedNotificationParam),
    ResourceListChangedNotification,
    ToolListChangedNotification,
    PromptListChangedNotification,
}

/// Notifications of which one kind cancels a request.
pub trait CancellationNotice: Sized {
    /// The cancellation that this notification is, if it is one.
    spec fn cancellation(&self) -> Option<CancelledNotificationParam>;

    fn cancelled_param(&self) -> (r: Option<CancelledNotificationParam>)
        ensures
            r == self.cancellation(),
    ;
}

impl CancellationNotice for ClientNotification {
    open spec fn cancellation(&self) -> Option<CancelledNotificationParam> {
        match self {
            ClientNotification::CancelledNotification(p) => Some(*p),
            _ => None,
        }
    }

    fn cancelled_param(&self) -> (r: Option<CancelledNotificationParam>) {
        match self {
            ClientNotification::CancelledNotification(p) => Some(p.clone()),
            _ => None,
        }
    }
}

impl CancellationNotice for ServerNotification {
    open spec fn cancellation(&self) -> Option<CancelledNotificationParam> {
        match self {
            ServerNotification::CancelledNotification(p) => Some(*p),
            _ => None,
        }
    }

    fn cancelled_param(&self) -> (r: Option<CancelledNotificationParam>) {
        match self {
            ServerNotification::CancelledNotification(p) => Some(p.clone()),
            _ => None,
        }
    }
}

} // verus!
