//! The JSON-RPC error object that a failed request is answered with.
use vstd::prelude::*;
use vstd::string::StringExecFns;

verus! {

/// JSON-RPC: the method does not exist or is not available.
pub const METHOD_NOT_FOUND: i32 = -32601;
/// JSON-RPC: invalid method parameters.
pub const INVALID_PARAMS: i32 = -32602;
/// JSON-RPC: internal error.
pub const INTERNAL_ERROR: i32 = -32603;
/// JSON-RPC: the request is not a valid request object.
pub const INVALID_REQUEST: i32 = -32600;
/// JSON-RPC: invalid JSON was received.
pub const PARSE_ERROR: i32 = -32700;
/// MCP: the resource asked for does not exist.
pub const RESOURCE_NOT_FOUND: i32 = -32002;

/// The numeric code of an error.
#[derive(Debug, Clone, Copy, PartialEq, Eq, Structural)]
pub struct ErrorCode(pub i32);

/// An error answered to a request: its code, a message and optional data.
#[derive(Debug)]
pub struct ErrorData {
    pub code: ErrorCode,
    pub message: String,
    pub data: Option<serde_json::Value>,
}

/// The error type of the protocol.
pub type Error = ErrorData;

impl ErrorData {
    pub fn new(code: ErrorCode, message: String, data: Option<serde_json::Value>) -> (r: Self)
        ensures
            r.code == code,
            r.message == message,
            r.data == data,
    {
        ErrorData { code, message, data }
    }

    pub fn invalid_params(message: String, data: Option<serde_json::Value>) -> (r: Self)
        ensures
            r.code == ErrorCode(INVALID_PARAMS),
            r.message == message,
            r.data == data,
    {
        ErrorData { code: ErrorCode(INVALID_PARAMS), message, data }
    }

    pub fn resource_not_found(message: String, data: Option<serde_json::Value>) -> (r: Self)
        ensures
            r.code == ErrorCode(RESOURCE_NOT_FOUND),
            r.message == message,
            r.data == data,
    {
        ErrorData { code: ErrorCode(RESOURCE_NOT_FOUND), message, data }
    }

    pub fn internal_error(message: String, data: Option<serde_json::Value>) -> (r: Self)
        ensures
            r.code == ErrorCode(INTERNAL_ERROR),
            r.message == message,
            r.data == data,
    {
        ErrorData { code: ErrorCode(INTERNAL_ERROR), message, data }
    }

    /// The error of a method that this side does not serve; the message is
    /// the method's name.
    pub fn method_not_found(method: &str) -> (r: Self)
        ensures
            r.code == ErrorCode(METHOD_NOT_FOUND),
            r.message@ == method@,
            r.data is None,
    {
        ErrorData { code: ErrorCode(METHOD_NOT_FOUND), message: String::from_str(method), data: None }
    }
}

} // verus!
