//! The protocol data model: request identifiers, structured errors,
//! descriptors, typed per-method requests and results, and the two
//! envelopes the dispatch engine consumes and produces.
//!
//! Descriptor and identity types carry a deep view (sequences of
//! characters in place of strings) so that contracts can speak about
//! copies; everything else is passed by move, where plain equality holds.

use crate::values::clone_value;
use serde_json::Value;
use vstd::prelude::*;

verus! {

/// Identifier correlating a response with its request: a string, a number,
/// or null.
#[derive(Debug, Clone, PartialEq, Eq)]
pub enum RequestId {
    Text(String),
    Number(i64),
    Null,
}

/// Wire-level error codes of the protocol.
#[derive(Debug, Clone, Copy, PartialEq, Eq, Structural)]
pub enum ErrorCode {
    ParseError,
    InvalidRequest,
    MethodNotFound,
    InvalidParams,
    InternalError,
}

/// The numeric code each `ErrorCode` stands for on the wire.
pub open spec fn spec_wire_code(c: ErrorCode) -> int {
    match c {
        ErrorCode::ParseError => -32700,
        ErrorCode::InvalidRequest => -32600,
        ErrorCode::MethodNotFound => -32601,
        ErrorCode::InvalidParams => -32602,
        ErrorCode::InternalError => -32603,
    }
}

/// The numeric wire form of an error code.
pub fn wire_code(c: ErrorCode) -> (n: i64)
    ensures
        n as int == spec_wire_code(c),
{
    match c {
        ErrorCode::ParseError => -32700,
        ErrorCode::InvalidRequest => -32600,
        ErrorCode::MethodNotFound => -32601,
        ErrorCode::InvalidParams => -32602,
        ErrorCode::InternalError => -32603,
    }
}

/// Structured error carried in a failure response: code, human-readable
/// message, optional extra data.
#[derive(Debug, Clone, PartialEq)]
pub struct ErrorObject {
    pub code: ErrorCode,
    pub message: String,
    pub data: Option<Value>,
}

impl ErrorObject {
    /// An error with the given code and message and no extra data.
    pub fn new(code: ErrorCode, message: String) -> (e: ErrorObject)
        ensures
            e.code == code,
            e.message@ == message@,
            e.data is None,
    {
        ErrorObject { code, message, data: None }
    }

    /// The method-not-found error: its message names what was missing.
    pub fn method_not_found(detail: &str) -> (e: ErrorObject)
        ensures
            e.code == ErrorCode::MethodNotFound,
            e.message@ == "Method not found: "@ + detail@,
            e.data is None,
    {
        let message = String::from_str("Method not found: ").concat(detail);
        ErrorObject { code: ErrorCode::MethodNotFound, message, data: None }
    }

    /// The invalid-params error for params that do not decode.
    pub fn invalid_params(detail: &str) -> (e: ErrorObject)
        ensures
            e.code == ErrorCode::InvalidParams,
            e.message@ == detail@,
            e.data is None,
    {
        let message = String::from_str(detail);
        ErrorObject { code: ErrorCode::InvalidParams, message, data: None }
    }
}

/// Deep view of an optional string.
pub open spec fn opt_str_view(s: Option<String>) -> Option<Seq<char>> {
    match s {
        Some(x) => Some(x@),
        None => None,
    }
}

/// Copies an optional string; the copy has the same view.
pub fn clone_opt_string(s: &Option<String>) -> (r: Option<String>)
    ensures
        opt_str_view(r) == opt_str_view(*s),
{
    match s {
        Some(x) => Some(x.clone()),
        None => None,
    }
}

/// Copies an optional JSON value; the copy is the same value.
pub fn clone_opt_value(v: &Option<Value>) -> (r: Option<Value>)
    ensures
        r == *v,
{
    match v {
        Some(x) => Some(clone_value(x)),
        None => None,
    }
}

/// Advertised tool descriptor.
#[derive(Debug)]
pub struct Tool {
    pub name: String,
    pub description: Option<String>,
    pub input_schema: Option<Value>,
}

/// Deep view of a tool descriptor.
pub struct ToolV {
    pub name: Seq<char>,
    pub description: Option<Seq<char>>,
    pub input_schema: Option<Value>,
}

impl DeepView for Tool {
    type V = ToolV;

    open spec fn deep_view(&self) -> ToolV {
        ToolV {
            name: self.name@,
            description: opt_str_view(self.description),
            input_schema: self.input_schema,
        }
    }
}

/// Advertised resource descriptor.
#[derive(Debug)]
pub struct Resource {
    pub uri: String,
    pub name: Option<String>,
    pub description: Option<String>,
    pub mime_type: Option<String>,
}

/// Deep view of a resource descriptor.
pub struct ResourceV {
    pub uri: Seq<char>,
    pub name: Option<Seq<char>>,
    pub description: Option<Seq<char>>,
    pub mime_type: Option<Seq<char>>,
}

impl DeepView for Resource {
    type V = ResourceV;

    open spec fn deep_view(&self) -> ResourceV {
        ResourceV {
            uri: self.uri@,
            name: opt_str_view(self.name),
            description: opt_str_view(self.description),
            mime_type: opt_str_view(self.mime_type),
        }
    }
}

/// Advertised prompt descriptor.
#[derive(Debug)]
pub struct Prompt {
    pub name: String,
    pub description: Option<String>,
}

/// Deep view of a prompt descriptor.
pub struct PromptV {
    pub name: Seq<char>,
    pub description: Option<Seq<char>>,
}

impl DeepView for Prompt {
    type V = PromptV;

    open spec fn deep_view(&self) -> PromptV {
        PromptV { name: self.name@, description: opt_str_view(self.description) }
    }
}

/// Copies a tool descriptor; the copy has the same deep view.
pub fn clone_tool(t: &Tool) -> (r: Tool)
    ensures
        r.deep_view() == t.deep_view(),
{
    Tool {
        name: t.name.clone(),
        description: clone_opt_string(&t.description),
        input_schema: clone_opt_value(&t.input_schema),
    }
}

/// Copies a resource descriptor; the copy has the same deep view.
pub fn clone_resource(t: &Resource) -> (r: Resource)
    ensures
        r.deep_view() == t.deep_view(),
{
    Resource {
        uri: t.uri.clone(),
        name: clone_opt_string(&t.name),
        description: clone_opt_string(&t.description),
        mime_type: clone_opt_string(&t.mime_type),
    }
}

/// Copies a prompt descriptor; the copy has the same deep view.
pub fn clone_prompt(t: &Prompt) -> (r: Prompt)
    ensures
        r.deep_view() == t.deep_view(),
{
    Prompt { name: t.name.clone(), description: clone_opt_string(&t.description) }
}

/// Copies a list of tool descriptors, deep view for deep view.
pub fn clone_tools(v: &Vec<Tool>) -> (r: Vec<Tool>)
    ensures
        r.deep_view() == v.deep_view(),
{
    let mut r: Vec<Tool> = Vec::new();
    let n = v.len();
    let mut i: usize = 0;
    while i < n
        invariant
            n == v@.len(),
            i <= n,
            r@.len() == i,
            forall|j: int| 0 <= j < i ==> r@[j].deep_view() == v@[j].deep_view(),
        decreases n - i,
    {
        r.push(clone_tool(&v[i]));
        i += 1;
    }
    proof {
        assert(r.deep_view() =~= v.deep_view());
    }
    r
}

/// Copies a list of resource descriptors, deep view for deep view.
pub fn clone_resources(v: &Vec<Resource>) -> (r: Vec<Resource>)
    ensures
        r.deep_view() == v.deep_view(),
{
    let mut r: Vec<Resource> = Vec::new();
    let n = v.len();
    let mut i: usize = 0;
    while i < n
        invariant
            n == v@.len(),
            i <= n,
            r@.len() == i,
            forall|j: int| 0 <= j < i ==> r@[j].deep_view() == v@[j].deep_view(),
        decreases n - i,
    {
        r.push(clone_resource(&v[i]));
        i += 1;
    }
    proof {
        assert(r.deep_view() =~= v.deep_view());
    }
    r
}

/// Copies a list of prompt descriptors, deep view for deep view.
pub fn clone_prompts(v: &Vec<Prompt>) -> (r: Vec<Prompt>)
    ensures
        r.deep_view() == v.deep_view(),
{
    let mut r: Vec<Prompt> = Vec::new();
    let n = v.len();
    let mut i: usize = 0;
    while i < n
        invariant
            n == v@.len(),
            i <= n,
            r@.len() == i,
            forall|j: int| 0 <= j < i ==> r@[j].deep_view() == v@[j].deep_view(),
        decreases n - i,
    {
        r.push(clone_prompt(&v[i]));
        i += 1;
    }
    proof {
        assert(r.deep_view() =~= v.deep_view());
    }
    r
}

/// Server identity advertised during initialization.
#[derive(Debug, Clone, PartialEq, Eq)]
pub struct Implementation {
    pub name: String,
    pub version: String,
}

/// Deep view of the server identity.
pub struct ImplementationV {
    pub name: Seq<char>,
    pub version: Seq<char>,
}

impl DeepView for Implementation {
    type V = ImplementationV;

    open spec fn deep_view(&self) -> ImplementationV {
        ImplementationV { name: self.name@, version: self.version@ }
    }
}

/// Copies the server identity; the copy has the same deep view.
pub fn clone_implementation(t: &Implementation) -> (r: Implementation)
    ensures
        r.deep_view() == t.deep_view(),
{
    Implementation { name: t.name.clone(), version: t.version.clone() }
}

/// Decoded params of a tool call: the tool's name and its arguments.
#[derive(Debug)]
pub struct CallToolParams {
    pub name: String,
    pub arguments: Option<Value>,
}

/// Decoded params of a resource read: the resource's URI.
#[derive(Debug)]
pub struct ReadResourceParams {
    pub uri: String,
}

/// Decoded params of a prompt get: the prompt's name and its arguments.
#[derive(Debug)]
pub struct GetPromptParams {
    pub name: String,
    pub arguments: Option<Value>,
}

/// One piece of a tool result.
#[derive(Debug, PartialEq)]
pub enum ToolResultContent {
    Text { text: String },
    Image { data: String, mime_type: String },
}

impl ToolResultContent {
    /// Plain text content.
    pub fn text(s: &str) -> (c: ToolResultContent)
        ensures
            c matches ToolResultContent::Text { text } && text@ == s@,
    {
        ToolResultContent::Text { text: String::from_str(s) }
    }
}

/// What a tool handler returns on success.
#[derive(Debug, PartialEq)]
pub struct CallToolResult {
    pub content: Vec<ToolResultContent>,
    pub is_error: Option<bool>,
}

/// One piece of a read resource.
#[derive(Debug, PartialEq)]
pub struct ResourceContents {
    pub uri: String,
    pub mime_type: Option<String>,
    pub text: Option<String>,
}

/// What a resource handler returns on success.
#[derive(Debug, PartialEq)]
pub struct ReadResourceResult {
    pub contents: Vec<ResourceContents>,
}

/// Who speaks a prompt message.
#[derive(Debug, Clone, Copy, PartialEq, Eq, Structural)]
pub enum PromptRole {
    User,
    Assistant,
}

/// One message of a rendered prompt.
#[derive(Debug, PartialEq)]
pub struct PromptMessage {
    pub role: PromptRole,
    pub content: String,
}

/// What a prompt handler returns on success.
#[derive(Debug, PartialEq)]
pub struct GetPromptResult {
    pub description: Option<String>,
    pub messages: Vec<PromptMessage>,
}

/// Result of the initialize operation.
#[derive(Debug)]
pub struct InitializeResult {
    pub protocol_version: String,
    pub capabilities: crate::capabilities::ServerCapabilities,
    pub server_info: Implementation,
    pub instructions: Option<String>,
}

/// Result of listing the tools.
#[derive(Debug)]
pub struct ListToolsResult {
    pub tools: Vec<Tool>,
    pub next_cursor: Option<String>,
}

/// Result of listing the resources.
#[derive(Debug)]
pub struct ListResourcesResult {
    pub resources: Vec<Resource>,
    pub next_cursor: Option<String>,
}

/// Result of listing the prompts.
#[derive(Debug)]
pub struct ListPromptsResult {
    pub prompts: Vec<Prompt>,
    pub next_cursor: Option<String>,
}

/// One inbound request: identifier, method name, optional params.
#[derive(Debug)]
pub struct RequestEnvelope {
    pub id: RequestId,
    pub method: String,
    pub params: Option<Value>,
}

/// The success payload of a response, one variant per operation.
#[derive(Debug)]
pub enum ResultPayload {
    Initialize(InitializeResult),
    ToolList(ListToolsResult),
    ToolCall(CallToolResult),
    ResourceList(ListResourcesResult),
    ResourceRead(ReadResourceResult),
    PromptList(ListPromptsResult),
    PromptGet(GetPromptResult),
}

/// A response carries exactly one of a success payload or a structured
/// error.
#[derive(Debug)]
pub enum ResponseBody {
    Success(ResultPayload),
    Failure(ErrorObject),
}

/// One outbound response: the request's identifier and the body.
#[derive(Debug)]
pub struct ResponseEnvelope {
    pub id: RequestId,
    pub body: ResponseBody,
}

} // verus!
