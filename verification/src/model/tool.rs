//! Tools that a server offers, and the results of calling them.
use vstd::prelude::*;

use super::content::Content;
use crate::json::JsonObject;

verus! {

/// A tool: its name, what it does, and the JSON schema of its input.
#[derive(Debug)]
pub struct Tool {
    pub name: String,
    pub description: String,
    pub input_schema: std::sync::Arc<JsonObject>,
}

/// The result of a tool call: the content it produced, and whether the call
/// failed.
#[derive(Debug)]
pub struct CallToolResult {
    pub content: Vec<Content>,
    pub is_error: Option<bool>,
}

impl CallToolResult {

    /// A successful call that produced `content`.
    pub fn success(content: Vec<Content>) -> (r: Self)
        ensures
            r.content == content,
            r.is_error == Some(false),
    {
        CallToolResult { content, is_error: Some(false) }
    }

    /// A failed call, described by `content`.
    pub fn error(content: Vec<Content>) -> (r: Self)
        ensures
            r.content == content,
            r.is_error == Some(true),
    {
        CallToolResult { content, is_error: Some(true) }
    }
}

} // verus!
