//! Requests, their parameters, and the results that answer them.
use vstd::prelude::*;

use super::content::Content;
use super::resource::ResourceContents;
use super::tool::{CallToolResult, Tool};
use super::{Annotated, Role};
use crate::json::JsonObject;

verus! {

/// The name and version of a program that speaks the protocol.
#[derive(Debug)]
pub struct Implementation {
    pub name: String,
    pub version: String,
}

/// A version of the protocol, such as `2024-11-05`.
#[derive(Debug)]
pub struct ProtocolVersion(pub String);

#[derive(Debug)]
pub struct RootsCapabilities {
    pub list_changed: Option<bool>,
}

/// What a client can do beyond the base protocol.
#[derive(Debug)]
pub struct ClientCapabilities {
    pub experimental: Option<JsonObject>,
    pub roots: Option<RootsCapabilities>,
    pub sampling: Option<JsonObject>,
}

#[derive(Debug)]
pub struct PromptsCapability {
    pub list_changed: Option<bool>,
}

#[derive(Debug)]
pub struct ResourcesCapability {
    pub subscribe: Option<bool>,
    pub list_changed: Option<bool>,
}

#[derive(Debug)]
pub struct ToolsCapability {
    pub list_changed: Option<bool>,
}

/// What a server can do beyond the base protocol.
#[derive(Debug)]
pub struct ServerCapabilities {
    pub experimental: Option<JsonObject>,
    pub logging: Option<JsonObject>,
    pub prompts: Option<PromptsCapability>,
    pub resources: Option<ResourcesCapability>,
    pub tools: Option<ToolsCapability>,
}

/// What a client says of itself when it opens a session.
#[derive(Debug)]
pub struct InitializeRequestParam {
    pub protocol_version: ProtocolVersion,
    pub capabilities: ClientCapabilities,
    pub client_info: Implementation,
}

/// What a server answers to the opening of a session.
#[derive(Debug)]
pub struct InitializeResult {
    pub protocol_version: ProtocolVersion,
    pub capabilities: ServerCapabilities,
    pub server_info: Implementation,
    pub instructions: Option<String>,
}

pub type ClientInfo = InitializeRequestParam;

pub type ServerInfo = InitializeResult;

/// The result of a request that returns nothing.
#[derive(Debug, Clone, Copy, PartialEq, Eq, Structural)]
pub struct EmptyResult {}

/// Where a listing resumes.
#[derive(Debug)]
pub struct PaginatedRequestParam {
    pub cursor: Option<String>,
}

#[derive(Debug)]
pub enum Reference {
    Resource { uri: String },
    Prompt { name: String },
}

#[derive(Debug)]
pub struct ArgumentInfo {
    pub name: String,
    pub value: String,
}

#[derive(Debug)]
pub struct CompleteRequestParam {
    pub reference: Reference,
    pub argument: ArgumentInfo,
}

#[derive(Debug)]
pub struct CompletionInfo {
    pub values: Vec<String>,
    pub total: Option<u32>,
    pub has_more: Option<bool>,
}

#[derive(Debug)]
pub struct CompleteResult {
    pub completion: CompletionInfo,
}

#[derive(Debug)]
pub struct SetLevelRequestParam {
    pub level: super::message::LoggingLevel,
}

#[derive(Debug)]
pub struct GetPromptRequestParam {
    pub name: String,
    pub arguments: Option<JsonObject>,
}

#[derive(Debug, Clone, Copy, PartialEq, Eq, Structural)]
pub enum PromptMessageRole {
    User,
    Assistant,
}

#[derive(Debug)]
pub enum PromptMessageContent {
    Text { text: String },
    Image { image: super::content::ImageContent },
    Resource { resource: super::content::EmbeddedResource },
}

#[derive(Debug)]
pub struct PromptMessage {
    pub role: PromptMessageRole,
    pub content: PromptMessageContent,
}

#[derive(Debug)]
pub struct GetPromptResult {
    pub description: Option<String>,
    pub messages: Vec<PromptMessage>,
}

#[derive(Debug)]
pub struct PromptArgument {
    pub name: String,
    pub description: Option<String>,
    pub required: Option<bool>,
}

#[derive(Debug)]
pub struct Prompt {
    pub name: String,
    pub description: Option<String>,
    pub arguments: Option<Vec<PromptArgument>>,
}

#[derive(Debug)]
pub struct ListPromptsResult {
    pub next_cursor: Option<String>,
    pub prompts: Vec<Prompt>,
}

#[derive(Debug)]
pub struct RawResource {
    pub uri: String,
    pub name: String,
    pub description: Option<String>,
    pub mime_type: Option<String>,
    pub size: Option<u32>,
}

pub type Resource = Annotated<RawResource>;

#[derive(Debug)]
pub struct ListResourcesResult {
    pub next_cursor: Option<String>,
    pub resources: Vec<Resource>,
}

#[derive(Debug)]
pub struct RawResourceTemplate {
    pub uri_template: String,
    pub name: String,
    pub description: Option<String>,
    pub mime_type: Option<String>,
}

pub type ResourceTemplate = Annotated<RawResourceTemplate>;

#[derive(Debug)]
pub struct ListResourceTemplatesResult {
    pub next_cursor: Option<String>,
    pub resource_templates: Vec<ResourceTemplate>,
}

#[derive(Debug)]
pub struct ReadResourceRequestParam {
    pub uri: String,
}

#[derive(Debug)]
pub struct ReadResourceResult {
    pub contents: Vec<ResourceContents>,
}

#[derive(Debug)]
pub struct SubscribeRequestParam {
    pub uri: String,
}

#[derive(Debug)]
pub struct UnsubscribeRequestParam {
    pub uri: String,
}

#[derive(Debug)]
pub struct CallToolRequestParam {
    pub name: String,
    pub arguments: Option<JsonObject>,
}

#[derive(Debug)]
pub struct ListToolsResult {
    pub next_cursor: Option<String>,
    pub tools: Vec<Tool>,
}

/// A message of a conversation that a server asks a client's model to continue.
#[derive(Debug)]
pub struct SamplingMessage {
    pub role: Role,
    pub content: Content,
}

#[derive(Debug, Clone, Copy, PartialEq, Eq, Structural)]
pub enum ContextInclusion {
    AllServers,
    NoContext,
    ThisServer,
}

/// A request for a completion by the client's model. The protocol's
/// `modelPreferences` and `temperature` (numbers between 0 and 1) are not
/// held here.
#[derive(Debug)]
pub struct CreateMessageRequestParam {
    pub messages: Vec<SamplingMessage>,
    pub system_prompt: Option<String>,
    pub include_context: Option<ContextInclusion>,
    pub max_tokens: u32,
    pub stop_sequences: Option<Vec<String>>,
    pub metadata: Option<serde_json::Value>,
}

#[derive(Debug)]
pub struct CreateMessageResult {
    pub model: String,
    pub stop_reason: Option<String>,
    pub message: SamplingMessage,
}

#[derive(Debug)]
pub struct Root {
    pub uri: String,
    pub name: Option<String>,
}

#[derive(Debug)]
pub struct ListRootsResult {
    pub roots: Vec<Root>,
}

/// The requests that a client sends.
#[derive(Debug)]
pub enum ClientRequest {
    PingRequest,
    InitializeRequest(InitializeRequestParam),
    CompleteRequest(CompleteRequestParam),
    SetLevelRequest(SetLevelRequestParam),
    GetPromptRequest(GetPromptRequestParam),
    ListPromptsRequest(PaginatedRequestParam),
    ListResourcesRequest(PaginatedRequestParam),
    ListResourceTemplatesRequest(PaginatedRequestParam),
    ReadResourceRequest(ReadResourceRequestParam),
    SubscribeRequest(SubscribeRequestParam),
    UnsubscribeRequest(UnsubscribeRequestParam),
    CallToolRequest(CallToolRequestParam),
    ListToolsRequest(PaginatedRequestParam),
}

/// The results that a server answers with.
#[derive(Debug)]
pub enum ServerResult {
    InitializeResult(InitializeResult),
    CompleteResult(CompleteResult),
    GetPromptResult(GetPromptResult),
    ListPromptsResult(ListPromptsResult),
    ListResourcesResult(ListResourcesResult),
    ListResourceTemplatesResult(ListResourceTemplatesResult),
    ReadResourceResult(ReadResourceResult),
    CallToolResult(CallToolResult),
    ListToolsResult(ListToolsResult),
    EmptyResult(EmptyResult),
}

/// The requests that a server sends.
#[derive(Debug)]
pub enum ServerRequest {
    PingRequest,
    CreateMessageRequest(CreateMessageRequestParam),
    ListRootsRequest,
}

/// The results that a client answers with.
#[derive(Debug)]
pub enum ClientResult {
    CreateMessageResult(CreateMessageResult),
    ListRootsResult(ListRootsResult),
    EmptyResult(EmptyResult),
}

} // verus!
