//! The data that client and server exchange.
use vstd::prelude::*;

pub mod content;
pub mod id;
pub mod message;
pub mod request;
pub mod resource;
pub mod tool;

pub use content::{
    text_content, Content, EmbeddedResource, ImageContent, IntoContents, RawContent,
    RawEmbeddedResource, RawImageContent, RawTextContent, TextContent,
};
pub use id::{NumberOrString, NumberOrStringView, ProgressToken, RequestId};
pub use message::{
    CancellationNotice, CancelledNotificationParam, ClientNotification, LoggingLevel,
    LoggingMessageNotificationParam, Message, ProgressNotificationParam,
    ResourceUpdatedNotificationParam, ServerNotification,
};
pub use request::{
    ArgumentInfo, CallToolRequestParam, ClientCapabilities, ClientInfo, ClientRequest,
    ClientResult, CompleteRequestParam, CompleteResult, CompletionInfo, ContextInclusion,
    CreateMessageRequestParam, CreateMessageResult, EmptyResult, GetPromptRequestParam,
    GetPromptResult, Implementation, InitializeRequestParam, InitializeResult, ListPromptsResult,
    ListResourceTemplatesResult, ListResourcesResult, ListRootsResult, ListToolsResult,
    PaginatedRequestParam, Prompt, PromptArgument, PromptMessage, PromptMessageContent,
    PromptMessageRole, PromptsCapability, ProtocolVersion, RawResource, RawResourceTemplate,
    ReadResourceRequestParam, ReadResourceResult, Reference, Resource, ResourceTemplate,
    ResourcesCapability, Root, RootsCapabilities, SamplingMessage, ServerCapabilities, ServerInfo,
    ServerRequest, ServerResult, SetLevelRequestParam, SubscribeRequestParam, ToolsCapability,
    UnsubscribeRequestParam,
};
pub use resource::ResourceContents;
pub use tool::{CallToolResult, Tool};

verus! {

/// Who a piece of content is meant for.
#[derive(Debug, Clone, Copy, PartialEq, Eq, Structural)]
pub enum Role {
    User,
    Assistant,
}

/// Hints on how a piece of content may be used. The protocol's `priority`
/// (a number between 0 and 1) is not held here.
#[derive(Debug, Clone, PartialEq)]
pub struct Annotations {
    pub audience: Option<Vec<Role>>,
    pub timestamp: Option<String>,
}

/// A value together with its optional annotations.
#[derive(Debug, Clone, PartialEq)]
pub struct Annotated<T> {
    pub raw: T,
    pub annotations: Option<Annotations>,
}

/// A type that stands for one constant string, such as a method's name.
pub trait ConstString: Default {
    const VALUE: &'static str;
}

impl<T> Annotated<T> {
    /// The value with no annotation.
    pub fn new(raw: T) -> (r: Self)
        ensures
            r.raw == raw,
            r.annotations is None,
    {
        Annotated { raw, annotations: None }
    }
}

} // verus!
