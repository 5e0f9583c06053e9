//! The protocol dispatcher: from a decoded request to the response.
//!
//! A message is an envelope with a version tag and optional identifier,
//! method, parameters, result and error. A request names a method; the
//! dispatcher routes it by that name and answers with an envelope that
//! echoes the identifier and holds either a result or an error. A message
//! without a method is not answered.
//!
//! Reading lines and writing them is left to the caller. The dispatcher
//! says what to do with what was read, and what to write.

use vstd::prelude::*;
use crate::json::{Json, JsonModel, Member};
use crate::lists::{list1, list2, list3, list4};
use crate::text::{same_text, trim, trimmed};
use crate::tools::{
    builtin_tools, call_outcome, listing_of, BuiltinTool, DMLTool, ToolDefinition,
    ToolDefinitionModel, ToolError, ToolRegistry,
};
use crate::{ServerCapabilities, ServerInfo, MCP_VERSION, SERVER_NAME, SERVER_VERSION};

verus! {

/// The error of a response: a code, a message and optional data.
#[derive(Debug)]
pub struct JsonRpcError {
    pub code: i32,
    pub message: String,
    pub data: Option<Json>,
}

/// Model of a [`JsonRpcError`].
pub struct JsonRpcErrorModel {
    pub code: i32,
    pub message: Seq<char>,
    pub data: Option<JsonModel>,
}

impl DeepView for JsonRpcError {
    type V = JsonRpcErrorModel;

    open spec fn deep_view(&self) -> JsonRpcErrorModel {
        JsonRpcErrorModel {
            code: self.code,
            message: self.message@,
            data: self.data.deep_view(),
        }
    }
}

impl View for JsonRpcError {
    type V = JsonRpcErrorModel;

    open spec fn view(&self) -> JsonRpcErrorModel {
        self.deep_view()
    }
}

/// A message of the protocol.
#[derive(Debug)]
pub struct JsonRpcMessage {
    pub jsonrpc: String,
    pub id: Option<Json>,
    pub method: Option<String>,
    pub params: Option<Json>,
    pub result: Option<Json>,
    pub error: Option<JsonRpcError>,
}

/// Model of a [`JsonRpcMessage`].
pub struct JsonRpcMessageModel {
    pub jsonrpc: Seq<char>,
    pub id: Option<JsonModel>,
    pub method: Option<Seq<char>>,
    pub params: Option<JsonModel>,
    pub result: Option<JsonModel>,
    pub error: Option<JsonRpcErrorModel>,
}

impl DeepView for JsonRpcMessage {
    type V = JsonRpcMessageModel;

    open spec fn deep_view(&self) -> JsonRpcMessageModel {
        JsonRpcMessageModel {
            jsonrpc: self.jsonrpc@,
            id: self.id.deep_view(),
            method: self.method.deep_view(),
            params: self.params.deep_view(),
            result: self.result.deep_view(),
            error: self.error.deep_view(),
        }
    }
}

impl View for JsonRpcMessage {
    type V = JsonRpcMessageModel;

    open spec fn view(&self) -> JsonRpcMessageModel {
        self.deep_view()
    }
}

/// The code of a request that names an unknown method.
pub const METHOD_NOT_FOUND: i32 = -32601;

/// The code of a request whose parameters are missing.
pub const INVALID_PARAMS: i32 = -32602;

/// The code of a tool call that failed.
pub const INTERNAL_ERROR: i32 = -32603;

/// A response that holds a result.
pub open spec fn success(id: Option<JsonModel>, result: JsonModel) -> JsonRpcMessageModel {
    JsonRpcMessageModel {
        jsonrpc: "2.0"@,
        id,
        method: None,
        params: None,
        result: Some(result),
        error: None,
    }
}

/// A response that holds an error.
pub open spec fn failure(
    id: Option<JsonModel>,
    code: i32,
    message: Seq<char>,
    data: Option<JsonModel>,
) -> JsonRpcMessageModel {
    JsonRpcMessageModel {
        jsonrpc: "2.0"@,
        id,
        method: None,
        params: None,
        result: None,
        error: Some(JsonRpcErrorModel { code, message, data }),
    }
}

/// The data of an error: the details as a string under `details`.
pub open spec fn details(text: Seq<char>) -> JsonModel {
    JsonModel::Object(seq![("details"@, JsonModel::Text(text))])
}

/// The capabilities as JSON.
pub open spec fn capabilities_json(capabilities: ServerCapabilities) -> JsonModel {
    JsonModel::Object(
        seq![
            ("tools"@, JsonModel::Bool(capabilities.tools)),
            ("resources"@, JsonModel::Bool(capabilities.resources)),
            ("prompts"@, JsonModel::Bool(capabilities.prompts)),
            ("logging"@, JsonModel::Bool(capabilities.logging)),
        ],
    )
}

/// The result of `initialize`: the protocol version, the capabilities and
/// the server's name and version.
pub open spec fn initialize_result(
    name: Seq<char>,
    version: Seq<char>,
    capabilities: ServerCapabilities,
) -> JsonModel {
    JsonModel::Object(
        seq![
            ("protocolVersion"@, JsonModel::Text(MCP_VERSION@)),
            ("capabilities"@, capabilities_json(capabilities)),
            (
                "serverInfo"@,
                JsonModel::Object(
                    seq![("name"@, JsonModel::Text(name)), ("version"@, JsonModel::Text(version))],
                ),
            ),
        ],
    )
}

/// A listed tool as JSON: name, description, and the schema under
/// `inputSchema`.
pub open spec fn definition_json(definition: ToolDefinitionModel) -> JsonModel {
    JsonModel::Object(
        seq![
            ("name"@, JsonModel::Text(definition.name)),
            ("description"@, JsonModel::Text(definition.description)),
            ("inputSchema"@, definition.input_schema),
        ],
    )
}

/// The result of `tools/list`: the listed tools as an array under `tools`.
pub open spec fn tools_list_result(listing: Seq<ToolDefinitionModel>) -> JsonModel {
    JsonModel::Object(
        seq![
            (
                "tools"@,
                JsonModel::Array(Seq::new(listing.len(), |i: int| definition_json(listing[i]))),
            ),
        ],
    )
}

/// The response to `tools/call`. Without parameters the request is
/// invalid. With parameters the call is made; its result is the result of
/// the response, and its error is reported as an internal error with the
/// error's message as details.
pub open spec fn tools_call_response<T: DMLTool>(
    tools: Seq<T>,
    id: Option<JsonModel>,
    params: Option<JsonModel>,
) -> JsonRpcMessageModel {
    match params {
        Some(params) => match call_outcome(tools, params) {
            Ok(result) => success(id, result),
            Err(error) => failure(
                id,
                INTERNAL_ERROR,
                "Internal error"@,
                Some(details(error.message())),
            ),
        },
        None => failure(
            id,
            INVALID_PARAMS,
            "Invalid params"@,
            Some(details("Missing params for tools/call"@)),
        ),
    }
}

/// Where a message is routed.
#[derive(Debug, Clone, Copy, PartialEq, Eq)]
pub enum Route {
    Initialize,
    ListTools,
    CallTool,
    UnknownMethod,
    Notification,
}

/// The route of a message, by its method.
pub open spec fn route_of(method: Option<Seq<char>>) -> Route {
    match method {
        Some(name) => if name == "initialize"@ {
            Route::Initialize
        } else if name == "tools/list"@ {
            Route::ListTools
        } else if name == "tools/call"@ {
            Route::CallTool
        } else {
            Route::UnknownMethod
        },
        None => Route::Notification,
    }
}

/// The route of a message.
pub fn route(message: &JsonRpcMessage) -> (r: Route)
    ensures
        r == route_of(message@.method),
{
    match &message.method {
        Some(name) => {
            if same_text(name.as_str(), "initialize") {
                Route::Initialize
            } else if same_text(name.as_str(), "tools/list") {
                Route::ListTools
            } else if same_text(name.as_str(), "tools/call") {
                Route::CallTool
            } else {
                Route::UnknownMethod
            }
        },
        None => Route::Notification,
    }
}

fn copy_id(id: &Option<Json>) -> (copy: Option<Json>)
    ensures
        copy.deep_view() == id.deep_view(),
{
    match id {
        Some(value) => Some(value.duplicate()),
        None => None,
    }
}

fn details_json(text: &str) -> (value: Json)
    ensures
        value@ == details(text@),
{
    Json::object(list1(Member::new("details", Json::text(text))))
}

fn definition_to_json(definition: &ToolDefinition) -> (value: Json)
    ensures
        value@ == definition_json(definition@),
{
    Json::object(
        list3(
            Member::new("name", Json::text(definition.name.as_str())),
            Member::new("description", Json::text(definition.description.as_str())),
            Member::new("inputSchema", definition.input_schema.duplicate()),
        ),
    )
}

/// What reading the next line of input gave.
#[derive(Debug)]
pub enum ReadOutcome {
    /// The input has ended.
    EndOfInput,
    /// The input could not be read.
    Failed,
    /// A line, with or without its line ending.
    Line(String),
}

/// What the caller of the dispatcher does next.
#[derive(Debug)]
pub enum Step {
    /// Stop reading: the server is done.
    Stop,
    /// Read the next line: this one holds nothing.
    Skip,
    /// Decode the text as a message and hand the outcome to
    /// [`DMLMCPServer::answer`].
    Decode(String),
}

/// The step that follows a read. The server stops at the end of the input
/// and when the input cannot be read. A line of white space is skipped. Any
/// other line is decoded, without the white space around it.
pub open spec fn step_after(outcome: ReadOutcome, step: Step) -> bool {
    match outcome {
        ReadOutcome::EndOfInput => step is Stop,
        ReadOutcome::Failed => step is Stop,
        ReadOutcome::Line(line) => if trimmed(line@).len() == 0 {
            step is Skip
        } else {
            step matches Step::Decode(text) && text@ == trimmed(line@)
        },
    }
}

/// Says what to do with what was read.
pub fn next_step(outcome: ReadOutcome) -> (step: Step)
    ensures
        step_after(outcome, step),
{
    match outcome {
        ReadOutcome::EndOfInput => Step::Stop,
        ReadOutcome::Failed => Step::Stop,
        ReadOutcome::Line(line) => {
            let text = trim(line.as_str());
            if text.as_str().unicode_len() == 0 {
                Step::Skip
            } else {
                Step::Decode(text)
            }
        },
    }
}

/// The server: the tools, and who it is and what it offers.
pub struct DMLMCPServer {
    tool_registry: ToolRegistry<BuiltinTool>,
    server_info: ServerInfo,
    capabilities: ServerCapabilities,
}

impl DMLMCPServer {
    /// The registered tools.
    pub closed spec fn tools(&self) -> Seq<BuiltinTool> {
        self.tool_registry.tools()
    }

    /// The server's name.
    pub closed spec fn name(&self) -> Seq<char> {
        self.server_info.name@
    }

    /// The server's version.
    pub closed spec fn version(&self) -> Seq<char> {
        self.server_info.version@
    }

    /// What the server offers.
    pub closed spec fn capabilities(&self) -> ServerCapabilities {
        self.capabilities
    }

    /// The response to a message, if it gets one.
    pub open spec fn reply_to(&self, message: JsonRpcMessageModel) -> Option<JsonRpcMessageModel> {
        match route_of(message.method) {
            Route::Initialize => Some(
                success(
                    message.id,
                    initialize_result(self.name(), self.version(), self.capabilities()),
                ),
            ),
            Route::ListTools => Some(
                success(message.id, tools_list_result(listing_of(self.tools()))),
            ),
            Route::CallTool => Some(tools_call_response(self.tools(), message.id, message.params)),
            Route::UnknownMethod => Some(
                failure(message.id, METHOD_NOT_FOUND, "Method not found"@, None),
            ),
            Route::Notification => None,
        }
    }

    /// A server with the built-in tools and the default identity and
    /// capabilities.
    pub fn new() -> (result: Result<DMLMCPServer, ToolError>)
        ensures
            result is Ok,
            result->Ok_0.tools() == builtin_tools(),
            result->Ok_0.name() == SERVER_NAME@,
            result->Ok_0.version() == SERVER_VERSION@,
            result->Ok_0.capabilities().tools,
            !result->Ok_0.capabilities().resources,
            !result->Ok_0.capabilities().prompts,
            result->Ok_0.capabilities().logging,
    {
        match ToolRegistry::new() {
            Ok(tool_registry) => Ok(
                DMLMCPServer {
                    tool_registry,
                    server_info: ServerInfo::default(),
                    capabilities: ServerCapabilities::default(),
                },
            ),
            Err(error) => Err(error),
        }
    }

    /// A server made of the given parts.
    pub fn with_parts(
        tool_registry: ToolRegistry<BuiltinTool>,
        server_info: ServerInfo,
        capabilities: ServerCapabilities,
    ) -> (server: DMLMCPServer)
        ensures
            server.tools() == tool_registry.tools(),
            server.name() == server_info.name@,
            server.version() == server_info.version@,
            server.capabilities() == capabilities,
    {
        DMLMCPServer { tool_registry, server_info, capabilities }
    }

    /// Answers a message: routes it by its method and builds the response.
    /// A message without a method gets none.
    pub fn handle_message(&self, message: &JsonRpcMessage) -> (response: Option<JsonRpcMessage>)
        ensures
            response.deep_view() == self.reply_to(message@),
    {
        match route(message) {
            Route::Initialize => Some(self.handle_initialize(message)),
            Route::ListTools => Some(self.handle_tools_list(message)),
            Route::CallTool => Some(self.handle_tools_call(message)),
            Route::UnknownMethod => Some(
                self.create_error_response(
                    copy_id(&message.id),
                    METHOD_NOT_FOUND,
                    "Method not found",
                    None,
                ),
            ),
            Route::Notification => None,
        }
    }

    /// Answers what was decoded from a line. A line that could not be
    /// decoded gets no response, and neither does a message without a
    /// method; the caller reads on in both cases.
    pub fn answer(&self, decoded: Option<JsonRpcMessage>) -> (response: Option<JsonRpcMessage>)
        ensures
            match decoded {
                Some(message) => response.deep_view() == self.reply_to(message@),
                None => response is None,
            },
    {
        match decoded {
            Some(message) => self.handle_message(&message),
            None => None,
        }
    }

    /// Answers `initialize`. The parameters are not read.
    pub fn handle_initialize(&self, message: &JsonRpcMessage) -> (response: JsonRpcMessage)
        ensures
            response@ == success(
                message@.id,
                initialize_result(self.name(), self.version(), self.capabilities()),
            ),
    {
        let capabilities = Json::object(
            list4(
                Member::new("tools", Json::Bool(self.capabilities.tools)),
                Member::new("resources", Json::Bool(self.capabilities.resources)),
                Member::new("prompts", Json::Bool(self.capabilities.prompts)),
                Member::new("logging", Json::Bool(self.capabilities.logging)),
            ),
        );
        let server_info = Json::object(
            list2(
                Member::new("name", Json::text(self.server_info.name.as_str())),
                Member::new("version", Json::text(self.server_info.version.as_str())),
            ),
        );
        let result = Json::object(
            list3(
                Member::new("protocolVersion", Json::text(MCP_VERSION)),
                Member::new("capabilities", capabilities),
                Member::new("serverInfo", server_info),
            ),
        );
        Self::create_response(copy_id(&message.id), result)
    }

    /// Answers `tools/list` with every registered tool. The parameters are
    /// not read.
    pub fn handle_tools_list(&self, message: &JsonRpcMessage) -> (response: JsonRpcMessage)
        ensures
            response@ == success(message@.id, tools_list_result(listing_of(self.tools()))),
    {
        let definitions = self.tool_registry.list_tools();
        let ghost listing = definitions.deep_view();
        let mut items: Vec<Json> = Vec::new();
        let mut i: usize = 0;
        while i < definitions.len()
            invariant
                i <= definitions@.len(),
                listing == definitions.deep_view(),
                items@.len() == i,
                forall|j: int| 0 <= j < i ==> items@[j]@ == definition_json(listing[j]),
            decreases definitions@.len() - i,
        {
            items.push(definition_to_json(&definitions[i]));
            i = i + 1;
        }
        assert(items.deep_view() =~= Seq::new(
            listing.len(),
            |i: int| definition_json(listing[i]),
        ));
        let result = Json::object(list1(Member::new("tools", Json::array(items))));
        Self::create_response(copy_id(&message.id), result)
    }

    /// Answers `tools/call`.
    pub fn handle_tools_call(&self, message: &JsonRpcMessage) -> (response: JsonRpcMessage)
        ensures
            response@ == tools_call_response(self.tools(), message@.id, message@.params),
    {
        match &message.params {
            Some(params) => match self.tool_registry.call_tool(params) {
                Ok(result) => Self::create_response(copy_id(&message.id), result),
                Err(error) => {
                    let text = error.message();
                    self.create_error_response(
                        copy_id(&message.id),
                        INTERNAL_ERROR,
                        "Internal error",
                        Some(details_json(text.as_str())),
                    )
                },
            },
            None => self.create_error_response(
                copy_id(&message.id),
                INVALID_PARAMS,
                "Invalid params",
                Some(details_json("Missing params for tools/call")),
            ),
        }
    }

    /// A response that holds a result.
    pub fn create_response(id: Option<Json>, result: Json) -> (response: JsonRpcMessage)
        ensures
            response@ == success(id.deep_view(), result@),
    {
        JsonRpcMessage {
            jsonrpc: "2.0".to_string(),
            id,
            method: None,
            params: None,
            result: Some(result),
            error: None,
        }
    }

    /// A response that holds an error.
    pub fn create_error_response(
        &self,
        id: Option<Json>,
        code: i32,
        message: &str,
        data: Option<Json>,
    ) -> (response: JsonRpcMessage)
        ensures
            response@ == failure(id.deep_view(), code, message@, data.deep_view()),
    {
        JsonRpcMessage {
            jsonrpc: "2.0".to_string(),
            id,
            method: None,
            params: None,
            result: None,
            error: Some(JsonRpcError { code, message: message.to_string(), data }),
        }
    }
}

} // verus!
