//! Tests of the dispatcher: one request in, one response out.

use dml_mcp::json::{Json, Member};
use dml_mcp::server::{next_step, route, DMLMCPServer, JsonRpcMessage, ReadOutcome, Route, Step};
use dml_mcp::tools::{BuiltinTool, PlaceholderTool, ToolRegistry};
use dml_mcp::{ServerCapabilities, ServerInfo, MCP_VERSION, SERVER_VERSION};

fn object(members: Vec<(&str, Json)>) -> Json {
    Json::object(members.into_iter().map(|(k, v)| Member::new(k, v)).collect())
}

fn request(id: Option<Json>, method: Option<&str>, params: Option<Json>) -> JsonRpcMessage {
    JsonRpcMessage {
        jsonrpc: "2.0".to_string(),
        id,
        method: method.map(|m| m.to_string()),
        params,
        result: None,
        error: None,
    }
}

fn call(name: &str, arguments: Json) -> Json {
    object(vec![("name", Json::text(name)), ("arguments", arguments)])
}

#[test]
fn initialize_is_answered_with_version_capabilities_and_identity() {
    let server = DMLMCPServer::new().unwrap();
    let response =
        server.handle_message(&request(Some(Json::unsigned(1)), Some("initialize"), None)).unwrap();
    assert_eq!(response.jsonrpc, "2.0");
    assert_eq!(response.id, Some(Json::unsigned(1)));
    assert!(response.error.is_none());
    assert!(response.method.is_none() && response.params.is_none());
    let result = response.result.unwrap();
    assert_eq!(result.index("protocolVersion").as_str(), Some(MCP_VERSION));
    assert_eq!(
        result.index("capabilities"),
        &object(vec![
            ("tools", Json::Bool(true)),
            ("resources", Json::Bool(false)),
            ("prompts", Json::Bool(false)),
            ("logging", Json::Bool(true)),
        ])
    );
    assert_eq!(
        result.index("serverInfo"),
        &object(vec![
            ("name", Json::text("dml-mcp-server")),
            ("version", Json::text(SERVER_VERSION)),
        ])
    );
}

#[test]
fn tools_list_holds_every_builtin_tool_once() {
    let server = DMLMCPServer::new().unwrap();
    let before = server
        .handle_message(&request(Some(Json::text("a")), Some("tools/list"), None))
        .unwrap();
    server.handle_message(&request(None, Some("tools/call"), Some(call("nope", Json::Null))));
    server.handle_message(&request(
        None,
        Some("tools/call"),
        Some(call("validate_code", Json::Null)),
    ));
    let after = server
        .handle_message(&request(Some(Json::text("a")), Some("tools/list"), Some(Json::Null)))
        .unwrap();
    assert_eq!(before.id, Some(Json::text("a")));
    assert_eq!(before.result, after.result);
    let result = after.result.unwrap();
    let tools = result.index("tools").as_array().unwrap();
    let names: Vec<&str> = tools.iter().map(|t| t.index("name").as_str().unwrap()).collect();
    assert_eq!(
        names,
        [
            "generate_device",
            "generate_register",
            "generate_method",
            "analyze_project",
            "validate_code",
            "generate_template",
            "apply_pattern",
        ]
    );
    for tool in tools {
        assert!(tool.index("description").as_str().is_some());
        assert_eq!(tool.index("inputSchema").index("type").as_str(), Some("object"));
    }
}

#[test]
fn tools_call_returns_the_tool_result() {
    let server = DMLMCPServer::new().unwrap();
    let arguments = object(vec![
        ("name", Json::text("status")),
        ("size", Json::unsigned(4)),
        ("offset", Json::text("0x04")),
    ]);
    let response = server
        .handle_message(&request(
            Some(Json::unsigned(2)),
            Some("tools/call"),
            Some(call("generate_register", arguments)),
        ))
        .unwrap();
    assert_eq!(response.id, Some(Json::unsigned(2)));
    assert!(response.error.is_none());
    let result = response.result.unwrap();
    let content = result.index("content").as_array().unwrap();
    assert_eq!(content[0].index("type").as_str(), Some("text"));
    assert_eq!(content[0].index("text").as_str(), Some("register status size 4 @ 0x04 {\n}\n"));
}

#[test]
fn tools_call_without_params_is_invalid() {
    let server = DMLMCPServer::new().unwrap();
    let response =
        server.handle_message(&request(Some(Json::unsigned(3)), Some("tools/call"), None)).unwrap();
    assert!(response.result.is_none());
    assert_eq!(response.id, Some(Json::unsigned(3)));
    let error = response.error.unwrap();
    assert_eq!(error.code, -32602);
    assert_eq!(error.message, "Invalid params");
    assert_eq!(
        error.data,
        Some(object(vec![("details", Json::text("Missing params for tools/call"))]))
    );
}

#[test]
fn an_unknown_tool_is_reported_with_its_name() {
    let server = DMLMCPServer::new().unwrap();
    let response = server
        .handle_message(&request(
            Some(Json::unsigned(4)),
            Some("tools/call"),
            Some(call("make_coffee", object(vec![]))),
        ))
        .unwrap();
    assert!(response.result.is_none());
    assert_eq!(response.id, Some(Json::unsigned(4)));
    let error = response.error.unwrap();
    assert_eq!(error.code, -32603);
    assert_eq!(error.message, "Internal error");
    let data = error.data.unwrap();
    let details = data.index("details").as_str().unwrap();
    assert!(details.contains("make_coffee"));
    assert_eq!(details, "Unknown tool: make_coffee");
}

#[test]
fn a_failed_tool_call_is_an_internal_error() {
    let server = DMLMCPServer::new().unwrap();
    let cases = [
        (object(vec![("arguments", object(vec![]))]), "Missing tool name"),
        (object(vec![("name", Json::text("generate_device"))]), "Missing tool arguments"),
        (call("generate_device", object(vec![])), "Missing device_name"),
        (call("generate_register", object(vec![("name", Json::text("r"))])),
            "Missing or invalid register size"),
    ];
    for (params, details) in cases {
        let response =
            server.handle_message(&request(None, Some("tools/call"), Some(params))).unwrap();
        assert_eq!(response.id, None);
        let error = response.error.unwrap();
        assert_eq!(error.code, -32603);
        assert_eq!(error.data, Some(object(vec![("details", Json::text(details))])));
    }
}

#[test]
fn an_unknown_method_is_not_found() {
    let server = DMLMCPServer::new().unwrap();
    let id = object(vec![("k", Json::array(vec![Json::Null]))]);
    let response = server
        .handle_message(&request(Some(id.duplicate()), Some("resources/list"), None))
        .unwrap();
    assert_eq!(response.id, Some(id));
    assert!(response.result.is_none());
    let error = response.error.unwrap();
    assert_eq!(error.code, -32601);
    assert_eq!(error.message, "Method not found");
    assert_eq!(error.data, None);
}

#[test]
fn a_message_without_method_gets_no_response() {
    let server = DMLMCPServer::new().unwrap();
    assert!(server.handle_message(&request(None, None, None)).is_none());
    assert!(server.handle_message(&request(Some(Json::unsigned(9)), None, None)).is_none());
}

#[test]
fn messages_are_routed_by_method() {
    assert_eq!(route(&request(None, Some("initialize"), None)), Route::Initialize);
    assert_eq!(route(&request(None, Some("tools/list"), None)), Route::ListTools);
    assert_eq!(route(&request(None, Some("tools/call"), None)), Route::CallTool);
    assert_eq!(route(&request(None, Some("Initialize"), None)), Route::UnknownMethod);
    assert_eq!(route(&request(None, Some(""), None)), Route::UnknownMethod);
    assert_eq!(route(&request(None, None, None)), Route::Notification);
}

#[test]
fn the_read_decides_the_next_step() {
    assert!(matches!(next_step(ReadOutcome::EndOfInput), Step::Stop));
    assert!(matches!(next_step(ReadOutcome::Failed), Step::Stop));
    assert!(matches!(next_step(ReadOutcome::Line("\n".to_string())), Step::Skip));
    assert!(matches!(next_step(ReadOutcome::Line("".to_string())), Step::Skip));
    assert!(matches!(next_step(ReadOutcome::Line(" \t \r\n".to_string())), Step::Skip));
    match next_step(ReadOutcome::Line("  {\"jsonrpc\":\"2.0\"} \r\n".to_string())) {
        Step::Decode(text) => assert_eq!(text, "{\"jsonrpc\":\"2.0\"}"),
        other => panic!("{:?}", other),
    }
}

#[test]
fn a_line_that_cannot_be_decoded_is_passed_over() {
    let server = DMLMCPServer::new().unwrap();
    match next_step(ReadOutcome::Line("{not json\n".to_string())) {
        Step::Decode(text) => assert_eq!(text, "{not json"),
        other => panic!("{:?}", other),
    }
    assert!(server.answer(None).is_none());
    let response = server.answer(Some(request(Some(Json::unsigned(1)), Some("initialize"), None)));
    assert_eq!(response.unwrap().id, Some(Json::unsigned(1)));
}

#[test]
fn a_server_is_made_of_its_parts() {
    let mut registry = ToolRegistry::new().unwrap();
    let extra = PlaceholderTool::new("format_code", "Format DML code");
    registry.register_tool(BuiltinTool::Placeholder(extra)).unwrap();
    let info = ServerInfo { name: "bench".to_string(), version: "9.9".to_string() };
    let capabilities =
        ServerCapabilities { tools: true, resources: true, prompts: false, logging: false };
    let server = DMLMCPServer::with_parts(registry, info, capabilities);

    let listed = server.handle_message(&request(None, Some("tools/list"), None)).unwrap();
    let result = listed.result.unwrap();
    let tools = result.index("tools").as_array().unwrap();
    assert_eq!(tools.len(), 8);
    assert_eq!(tools[7].index("name").as_str(), Some("format_code"));
    assert_eq!(tools[7].index("description").as_str(), Some("Format DML code"));

    let hello = server.handle_message(&request(None, Some("initialize"), None)).unwrap();
    let result = hello.result.unwrap();
    assert_eq!(result.index("serverInfo").index("name").as_str(), Some("bench"));
    assert_eq!(result.index("serverInfo").index("version").as_str(), Some("9.9"));
    assert_eq!(result.index("capabilities").index("resources"), &Json::Bool(true));
    assert_eq!(result.index("capabilities").index("logging"), &Json::Bool(false));
}
