//! Code-generation tools for DML device models, served over a JSON-RPC
//! shaped request/response protocol.
//!
//! The crate has two halves. The generation engine turns a typed device
//! description (device, banks, registers, fields, interfaces, methods) into
//! DML source text under a formatting configuration. The dispatch layer routes
//! decoded request envelopes to named tools and builds the response envelopes.
//! Every function is verified against a mathematical model of its result.

use vstd::prelude::*;

pub mod generation;
pub mod json;
pub mod laws;
pub mod layout;
mod lists;
pub mod model;
pub mod server;
pub mod shape;
pub mod templates;
pub mod text;
pub mod tools;

pub use generation::{
    CodeTemplate, DMLGenerator, GeneratedCode, GenerationConfig, GenerationContext,
    GenerationError, IndentStyle, LineEnding, TemplateParameter, TemplateRegistry,
};
pub use model::{
    BankSpec, DeviceSpec, FieldSpec, InterfaceSpec, MethodSpec, ParameterSpec, RegisterSpec,
};
pub use server::{DMLMCPServer, JsonRpcError, JsonRpcMessage};
pub use templates::{DMLSnippets, DMLTemplates, Pattern, PatternTemplates};
pub use tools::{
    BuiltinTool, DMLTool, GenerateDeviceTool, GenerateRegisterTool, PlaceholderTool, ToolContent,
    ToolDefinition, ToolError, ToolRegistry, ToolResult,
};

verus! {

/// Protocol revision announced by `initialize`.
pub const MCP_VERSION: &'static str = "2024-11-05";

/// The name under which the server introduces itself.
pub const SERVER_NAME: &'static str = "dml-mcp-server";

/// The version of the server.
pub const SERVER_VERSION: &'static str = "0.1.0";

/// Who the server is: a name and a version.
#[derive(Debug)]
pub struct ServerInfo {
    pub name: String,
    pub version: String,
}

impl Default for ServerInfo {
    /// The server's own name and version.
    fn default() -> (info: Self)
        ensures
            info.name@ == SERVER_NAME@,
            info.version@ == SERVER_VERSION@,
    {
        Self { name: SERVER_NAME.to_string(), version: SERVER_VERSION.to_string() }
    }
}

/// What the server offers.
#[derive(Debug, Clone, Copy)]
pub struct ServerCapabilities {
    pub tools: bool,
    pub resources: bool,
    pub prompts: bool,
    pub logging: bool,
}

impl Default for ServerCapabilities {
    /// Tools and logging, neither resources nor prompts.
    fn default() -> (capabilities: Self)
        ensures
            capabilities.tools,
            !capabilities.resources,
            !capabilities.prompts,
            capabilities.logging,
    {
        Self { tools: true, resources: false, prompts: false, logging: true }
    }
}

} // verus!
