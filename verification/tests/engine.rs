use std::cell::Cell;
use std::rc::Rc;

use mcp_protocol_server::{
    plan_tool_call, route, settle_tool_call, CallToolParams, CallToolResult, ErrorCode,
    ErrorObject, GetPromptParams, GetPromptResult, Operation, Plan, PromptMessage, PromptRole,
    ReadResourceParams, ReadResourceResult, RequestEnvelope, RequestId, ResourceContents,
    ResponseBody, ResponseEnvelope, ResultPayload, Server, ServerBuilder, Step, Tool,
    ToolResultContent,
};

type ToolHandler = Box<dyn Fn(CallToolParams) -> Result<CallToolResult, ErrorObject>>;
type ResourceHandler = Box<dyn Fn(ReadResourceParams) -> Result<ReadResourceResult, ErrorObject>>;
type PromptHandler = Box<dyn Fn(GetPromptParams) -> Result<GetPromptResult, ErrorObject>>;

type TestServer = Server<ToolHandler, ResourceHandler, PromptHandler>;

fn echo_server() -> TestServer {
    let mut server: TestServer = ServerBuilder::new("echo-server".to_string(), "1.0.0".to_string())
        .with_tool(Tool {
            name: "echo".to_string(),
            description: Some("Echo back the input".to_string()),
            input_schema: None,
        })
        .build();
    server.set_tool_handler(
        "echo".to_string(),
        Box::new(|req: CallToolParams| {
            let message = req
                .arguments
                .as_ref()
                .and_then(|args| args.get("message"))
                .and_then(|v| v.as_str())
                .unwrap_or("Hello, World!")
                .to_string();
            Ok(CallToolResult { content: vec![ToolResultContent::text(&message)], is_error: None })
        }),
    );
    server
}

fn request(id: i64, method: &str, params: Option<&str>) -> RequestEnvelope {
    RequestEnvelope {
        id: RequestId::Number(id),
        method: method.to_string(),
        params: params.map(|p| serde_json::from_str(p).expect("test params parse")),
    }
}

/// Runs one full cycle: invokes the handler if the step asks for it.
fn cycle(server: &TestServer, req: RequestEnvelope) -> ResponseEnvelope {
    match server.handle_request(req) {
        Step::Done(resp) => resp,
        Step::CallTool(h, p, id) => {
            let outcome = h(p);
            settle_tool_call(id, outcome)
        }
        Step::ReadResource(h, p, id) => {
            let outcome = h(p);
            mcp_protocol_server::settle_resource_read(id, outcome)
        }
        Step::GetPrompt(h, p, id) => {
            let outcome = h(p);
            mcp_protocol_server::settle_prompt_get(id, outcome)
        }
    }
}

fn failure(resp: &ResponseEnvelope) -> &ErrorObject {
    match &resp.body {
        ResponseBody::Failure(e) => e,
        other => panic!("expected a failure body, got {other:?}"),
    }
}

#[test]
fn routing_table_is_exhaustive() {
    assert_eq!(route("initialize"), Operation::Initialize);
    assert_eq!(route("tools/list"), Operation::ListTools);
    assert_eq!(route("tools/call"), Operation::CallTool);
    assert_eq!(route("resources/list"), Operation::ListResources);
    assert_eq!(route("resources/read"), Operation::ReadResource);
    assert_eq!(route("prompts/list"), Operation::ListPrompts);
    assert_eq!(route("prompts/get"), Operation::GetPrompt);
    assert_eq!(route("tools/expunge"), Operation::Unknown);
    assert_eq!(route(""), Operation::Unknown);
}

#[test]
fn initialize_reports_version_capabilities_identity() {
    let server = echo_server();
    let resp = cycle(&server, request(1, "initialize", None));
    assert_eq!(resp.id, RequestId::Number(1));
    match resp.body {
        ResponseBody::Success(ResultPayload::Initialize(r)) => {
            assert_eq!(r.protocol_version, "2024-11-05");
            assert!(r.capabilities.tools.is_some());
            assert!(r.capabilities.resources.is_none());
            assert!(r.capabilities.prompts.is_none());
            assert!(r.capabilities.logging.is_some());
            assert_eq!(r.server_info.name, "echo-server");
            assert_eq!(r.server_info.version, "1.0.0");
            assert!(r.instructions.is_none());
        }
        other => panic!("expected an initialize success, got {other:?}"),
    }
}

#[test]
fn tools_list_returns_full_list() {
    let server = echo_server();
    let resp = cycle(&server, request(4, "tools/list", None));
    assert_eq!(resp.id, RequestId::Number(4));
    match resp.body {
        ResponseBody::Success(ResultPayload::ToolList(r)) => {
            assert_eq!(r.tools.len(), 1);
            assert_eq!(r.tools[0].name, "echo");
            assert_eq!(r.tools[0].description.as_deref(), Some("Echo back the input"));
            assert!(r.next_cursor.is_none());
        }
        other => panic!("expected a tool list, got {other:?}"),
    }
}

#[test]
fn unknown_method_is_method_not_found() {
    let server = echo_server();
    let resp = cycle(&server, request(5, "tools/expunge", None));
    let e = failure(&resp);
    assert_eq!(e.code, ErrorCode::MethodNotFound);
    assert_eq!(e.message, "Method not found: tools/expunge");
}

#[test]
fn echo_call_round_trip() {
    let server = echo_server();
    let resp = cycle(
        &server,
        request(7, "tools/call", Some(r#"{"name": "echo", "arguments": {"message": "hi"}}"#)),
    );
    assert_eq!(resp.id, RequestId::Number(7));
    match resp.body {
        ResponseBody::Success(ResultPayload::ToolCall(r)) => {
            assert_eq!(r.content, vec![ToolResultContent::Text { text: "hi".to_string() }]);
            assert!(r.is_error.is_none());
        }
        other => panic!("expected a tool call success, got {other:?}"),
    }
}

#[test]
fn missing_tool_is_method_not_found_naming_it() {
    let server = echo_server();
    let resp = cycle(
        &server,
        request(8, "tools/call", Some(r#"{"name": "missing", "arguments": {"message": "hi"}}"#)),
    );
    let e = failure(&resp);
    assert_eq!(e.code, ErrorCode::MethodNotFound);
    assert_eq!(e.message, "Method not found: Tool not found: missing");
}

#[test]
fn malformed_params_never_invoke_a_handler() {
    let mut server = echo_server();
    let invoked = Rc::new(Cell::new(false));
    let flag = invoked.clone();
    server.set_tool_handler(
        "echo".to_string(),
        Box::new(move |_req: CallToolParams| {
            flag.set(true);
            Ok(CallToolResult { content: Vec::new(), is_error: None })
        }),
    );
    let resp = cycle(&server, request(9, "tools/call", Some(r#"{"arguments": {}}"#)));
    let e = failure(&resp);
    assert_eq!(e.code, ErrorCode::InvalidParams);
    assert_eq!(e.message, "Invalid tool request");
    assert!(!invoked.get(), "the handler must not run on malformed params");

    let resp = cycle(&server, request(10, "tools/call", None));
    assert_eq!(failure(&resp).code, ErrorCode::InvalidParams);
    assert!(!invoked.get());
}

#[test]
fn replacement_uses_only_the_new_handler() {
    let mut server = echo_server();
    server.set_tool_handler(
        "echo".to_string(),
        Box::new(|_req: CallToolParams| {
            Ok(CallToolResult {
                content: vec![ToolResultContent::text("old")],
                is_error: None,
            })
        }),
    );
    // An in-flight call captured its handler before the replacement below;
    // its outcome is unaffected by it.
    let in_flight = server.handle_request(request(11, "tools/call", Some(r#"{"name": "echo"}"#)));
    let in_flight_resp = match in_flight {
        Step::CallTool(h, p, id) => {
            let outcome = h(p);
            settle_tool_call(id, outcome)
        }
        Step::Done(resp) => panic!("expected a tool invocation, got a response {:?}", resp.body),
        _ => panic!("expected a tool invocation"),
    };
    match in_flight_resp.body {
        ResponseBody::Success(ResultPayload::ToolCall(r)) => {
            assert_eq!(r.content, vec![ToolResultContent::Text { text: "old".to_string() }]);
        }
        other => panic!("expected a tool call success, got {other:?}"),
    }

    server.set_tool_handler(
        "echo".to_string(),
        Box::new(|_req: CallToolParams| {
            Ok(CallToolResult {
                content: vec![ToolResultContent::text("new")],
                is_error: None,
            })
        }),
    );
    let resp = cycle(&server, request(12, "tools/call", Some(r#"{"name": "echo"}"#)));
    match resp.body {
        ResponseBody::Success(ResultPayload::ToolCall(r)) => {
            assert_eq!(r.content, vec![ToolResultContent::Text { text: "new".to_string() }]);
        }
        other => panic!("expected a tool call success, got {other:?}"),
    }
}

#[test]
fn handler_errors_propagate_verbatim() {
    let mut server = echo_server();
    server.set_tool_handler(
        "echo".to_string(),
        Box::new(|_req: CallToolParams| {
            Err(ErrorObject {
                code: ErrorCode::InternalError,
                message: "handler says no".to_string(),
                data: Some(serde_json::from_str(r#"{"attempt": 3}"#).unwrap()),
            })
        }),
    );
    let resp = cycle(&server, request(13, "tools/call", Some(r#"{"name": "echo"}"#)));
    let e = failure(&resp);
    assert_eq!(e.code, ErrorCode::InternalError);
    assert_eq!(e.message, "handler says no");
    assert_eq!(e.data, Some(serde_json::from_str(r#"{"attempt": 3}"#).unwrap()));
}

#[test]
fn resource_read_without_handler_is_not_found() {
    let server = echo_server();
    let resp = cycle(&server, request(14, "resources/read", Some(r#"{"uri": "mem://x"}"#)));
    let e = failure(&resp);
    assert_eq!(e.code, ErrorCode::MethodNotFound);
    assert_eq!(e.message, "Method not found: No resource handler configured");
}

#[test]
fn resource_read_uses_the_single_handler() {
    let mut server = echo_server();
    server.set_resource_handler(Box::new(|req: ReadResourceParams| {
        Ok(ReadResourceResult {
            contents: vec![ResourceContents {
                uri: req.uri,
                mime_type: Some("text/plain".to_string()),
                text: Some("contents".to_string()),
            }],
        })
    }));
    let resp = cycle(&server, request(15, "resources/read", Some(r#"{"uri": "mem://x"}"#)));
    match resp.body {
        ResponseBody::Success(ResultPayload::ResourceRead(r)) => {
            assert_eq!(r.contents.len(), 1);
            assert_eq!(r.contents[0].uri, "mem://x");
            assert_eq!(r.contents[0].text.as_deref(), Some("contents"));
        }
        other => panic!("expected a resource read success, got {other:?}"),
    }
}

#[test]
fn prompt_get_routes_by_name() {
    let mut server = echo_server();
    server.set_prompt_handler(
        "greet".to_string(),
        Box::new(|req: GetPromptParams| {
            Ok(GetPromptResult {
                description: Some(format!("prompt {}", req.name)),
                messages: vec![PromptMessage {
                    role: PromptRole::User,
                    content: "hello".to_string(),
                }],
            })
        }),
    );
    let resp = cycle(&server, request(16, "prompts/get", Some(r#"{"name": "greet"}"#)));
    match resp.body {
        ResponseBody::Success(ResultPayload::PromptGet(r)) => {
            assert_eq!(r.description.as_deref(), Some("prompt greet"));
            assert_eq!(r.messages.len(), 1);
        }
        other => panic!("expected a prompt success, got {other:?}"),
    }

    let resp = cycle(&server, request(17, "prompts/get", Some(r#"{"name": "absent"}"#)));
    let e = failure(&resp);
    assert_eq!(e.code, ErrorCode::MethodNotFound);
    assert_eq!(e.message, "Method not found: Prompt not found: absent");
}

#[test]
fn responses_keep_request_order_and_ids() {
    let server = echo_server();
    let requests = vec![
        request(1, "initialize", None),
        request(2, "tools/call", Some(r#"{"name": "echo", "arguments": {"message": "a"}}"#)),
        request(3, "tools/list", None),
        request(4, "tools/call", Some(r#"{"name": "missing"}"#)),
        request(5, "prompts/list", None),
    ];
    let mut responses = Vec::new();
    for req in requests {
        responses.push(cycle(&server, req));
    }
    let ids: Vec<&RequestId> = responses.iter().map(|r| &r.id).collect();
    assert_eq!(
        ids,
        vec![
            &RequestId::Number(1),
            &RequestId::Number(2),
            &RequestId::Number(3),
            &RequestId::Number(4),
            &RequestId::Number(5),
        ]
    );
}

#[test]
fn plan_rejects_undecoded_params() {
    let server = echo_server();
    let plan = plan_tool_call(&server.tool_handlers, RequestId::Number(20), None);
    match plan {
        Plan::Respond(resp) => {
            assert_eq!(resp.id, RequestId::Number(20));
            assert_eq!(failure(&resp).code, ErrorCode::InvalidParams);
        }
        Plan::Invoke(..) => panic!("undecodable params must not reach a handler"),
    }
}

#[test]
fn tools_list_preserves_input_schema() {
    let schema: serde_json::Value = serde_json::from_str(
        r#"{"type": "object", "properties": {"message": {"type": "string"}}}"#,
    )
    .unwrap();
    let server: TestServer = ServerBuilder::new("s".to_string(), "0.1".to_string())
        .with_tool(Tool {
            name: "echo".to_string(),
            description: None,
            input_schema: Some(schema.clone()),
        })
        .build();
    let resp = cycle(&server, request(21, "tools/list", None));
    match resp.body {
        ResponseBody::Success(ResultPayload::ToolList(r)) => {
            assert_eq!(r.tools[0].input_schema.as_ref(), Some(&schema));
        }
        other => panic!("expected a tool list, got {other:?}"),
    }
}
