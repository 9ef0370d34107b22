//! Core of a JSON-RPC tool/resource/prompt server.
//!
//! The crate verifies the decision-making parts of such a server: the
//! capability set derived at build time, the handler registry with its
//! last-registration-wins semantics, and the dispatch rules that turn one
//! request envelope into one response envelope. Transports, the async run
//! loop and handler invocation live outside the verified core and drive it
//! through the types defined here.

pub mod text;
pub mod values;
pub mod protocol;
pub mod capabilities;
pub mod registry;
pub mod server;
pub mod dispatch;

pub use capabilities::ServerCapabilities;
pub use dispatch::{
    plan_prompt_get, plan_resource_read, plan_tool_call, route, settle_prompt_get,
    settle_resource_read, settle_tool_call, Operation, Plan, Step,
};
pub use protocol::{
    CallToolParams, CallToolResult, ErrorCode, ErrorObject, GetPromptParams, GetPromptResult,
    Implementation, Prompt, PromptMessage, PromptRole, ReadResourceParams, ReadResourceResult,
    RequestEnvelope, RequestId, Resource, ResourceContents, ResponseBody, ResponseEnvelope,
    ResultPayload, Tool, ToolResultContent,
};
pub use registry::Registry;
pub use server::{Server, ServerBuilder};
