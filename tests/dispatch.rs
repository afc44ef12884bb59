use browser_mcp::args::{ArgValue, Arguments};
use browser_mcp::error::{ErrorKind, ToolError};
use browser_mcp::registry::{tool_definitions, Tool};
use browser_mcp::server::{Dispatch, Incoming, JsonRpcRequest, JsonRpcResponse, McpServer, Params, RpcResult};
use serde_json::Value;

fn request(id: i64, method: &str, params: Option<Params>) -> Incoming {
    Incoming::Request(JsonRpcRequest {
        jsonrpc: Some("2.0".to_string()),
        id: Some(Value::from(id)),
        method: method.to_string(),
        params,
    })
}

fn fields(pairs: Vec<(&str, &str)>) -> Arguments {
    let mut a = Arguments::new();
    for (k, v) in pairs {
        a.set(k.to_string(), ArgValue::Str(v.to_string()));
    }
    a
}

fn reply(d: Dispatch) -> JsonRpcResponse {
    match d {
        Dispatch::Reply(r) => r,
        Dispatch::Call(_) => panic!("expected a reply"),
    }
}

fn error_of(r: &JsonRpcResponse) -> (i32, String, String) {
    assert!(r.result.is_none());
    let e = r.error.as_ref().expect("an error response");
    (e.code, e.message.clone(), e.data.clone().unwrap_or_default())
}

#[test]
fn unknown_method_is_method_not_found() {
    let mut server = McpServer::new();
    let r = reply(server.handle_mcp_request(request(7, "resources/list", None)));
    assert_eq!(r.jsonrpc, "2.0");
    assert_eq!(r.id, Some(Value::from(7)));
    assert_eq!(
        error_of(&r),
        (-32601, "Method not found".to_string(), "Unknown method: resources/list".to_string())
    );
}

#[test]
fn unknown_tool_is_method_not_found() {
    let mut server = McpServer::new();
    let p = Params { fields: fields(vec![("name", "nonexistent")]), arguments: Arguments::new() };
    let r = reply(server.handle_mcp_request(request(1, "tools/call", Some(p))));
    assert_eq!(error_of(&r), (-32601, "Method not found".to_string(), "Unknown tool: nonexistent".to_string()));
}

#[test]
fn tools_call_needs_params_and_a_name() {
    let mut server = McpServer::new();
    let r = reply(server.handle_mcp_request(request(1, "tools/call", None)));
    assert_eq!(error_of(&r), (-32602, "Invalid params".to_string(), "Missing parameters".to_string()));
    let p = Params { fields: Arguments::new(), arguments: Arguments::new() };
    let r = reply(server.handle_mcp_request(request(2, "tools/call", Some(p))));
    assert_eq!(error_of(&r), (-32602, "Invalid params".to_string(), "Missing tool name".to_string()));
}

#[test]
fn tools_call_hands_back_the_tool_and_its_arguments() {
    let mut server = McpServer::new();
    let p = Params { fields: fields(vec![("name", "find")]), arguments: fields(vec![("pattern", "x")]) };
    match server.handle_mcp_request(request(3, "tools/call", Some(p))) {
        Dispatch::Call(c) => {
            assert_eq!(c.tool, Tool::Find);
            assert_eq!(c.id, Some(Value::from(3)));
            assert_eq!(c.arguments.entries.len(), 1);
        }
        Dispatch::Reply(_) => panic!("expected a tool call"),
    }
}

#[test]
fn tool_outcomes_become_responses() {
    let ok = McpServer::tool_response(Some(Value::from(4)), Ok("done".to_string()));
    assert!(ok.error.is_none());
    match ok.result {
        Some(RpcResult::ToolOutput(o)) => {
            assert_eq!(o.content.len(), 1);
            assert_eq!(o.content[0].content_type, "text");
            assert_eq!(o.content[0].text, "done");
        }
        _ => panic!("expected tool output"),
    }
    let err = McpServer::tool_response(Some(Value::from(5)), Err(ToolError::NoPageOpen));
    assert_eq!(err.id, Some(Value::from(5)));
    assert_eq!(
        error_of(&err),
        (
            -32603,
            "Internal error".to_string(),
            "❌ No page is currently open.\nPlease open a page first using the 'open' tool.".to_string()
        )
    );
}

#[test]
fn malformed_empty_and_unreadable_bodies() {
    let mut server = McpServer::new();
    let r = reply(server.handle_mcp_request(Incoming::Malformed("expected value".to_string())));
    assert_eq!(r.id, None);
    assert_eq!(error_of(&r), (-32700, "Parse error".to_string(), "Invalid JSON: expected value".to_string()));
    let r = reply(server.handle_mcp_request(Incoming::Empty));
    assert_eq!(error_of(&r), (-32600, "Invalid Request".to_string(), "Empty request body".to_string()));
    let r = reply(server.handle_mcp_request(Incoming::Unreadable("reset".to_string())));
    assert_eq!(
        error_of(&r),
        (-32600, "Invalid Request".to_string(), "Failed to read request body: reset".to_string())
    );
}

#[test]
fn wrong_version_is_an_invalid_request() {
    let mut server = McpServer::new();
    let q = JsonRpcRequest { jsonrpc: Some("1.0".to_string()), id: Some(Value::from("a")), method: "ping".to_string(), params: None };
    let r = reply(server.handle_mcp_request(Incoming::Request(q)));
    assert_eq!(r.id, Some(Value::from("a")));
    assert_eq!(
        error_of(&r),
        (-32600, "Invalid Request".to_string(), "JSON-RPC version must be 2.0".to_string())
    );
}

#[test]
fn fixed_methods_answer() {
    let mut server = McpServer::new();
    for (m, check) in [
        ("initialize", 0),
        ("ping", 1),
        ("notifications/cancelled", 2),
        ("tools/list", 3),
    ] {
        let r = reply(server.handle_mcp_request(request(9, m, None)));
        assert!(r.error.is_none());
        assert_eq!(r.id, Some(Value::from(9)));
        match (check, r.result) {
            (0, Some(RpcResult::Initialized)) => {}
            (1, Some(RpcResult::Pong)) => {}
            (2, Some(RpcResult::Acknowledged)) => {}
            (3, Some(RpcResult::ToolList(v))) => assert_eq!(v.len(), 3),
            _ => panic!("unexpected result for {}", m),
        }
    }
}

#[test]
fn catalogue_lists_three_tools_with_schemas() {
    let defs = tool_definitions();
    let names: Vec<&str> = defs.iter().map(|d| d.name.as_str()).collect();
    assert_eq!(names, vec!["search", "open", "find"]);
    assert_eq!(defs[1].properties[2].name, "num_lines");
    assert_eq!(defs[1].properties[2].default, Some(-1));
    assert_eq!(defs[0].properties[1].default, Some(10));
    assert_eq!(defs[2].required, vec!["pattern".to_string()]);
}

#[test]
fn terminate_clears_the_session() {
    let mut server = McpServer::new();
    let mut a = Arguments::new();
    a.set("url".to_string(), ArgValue::Str("https://a.test".to_string()));
    let req = server.begin_open(&a, "S1").unwrap();
    server.finish_open("S1", &req, &"line0\nline1".to_string()).unwrap();
    let p = Params { fields: fields(vec![("sessionId", "S1")]), arguments: Arguments::new() };
    let r = reply(server.handle_mcp_request(request(2, "session/terminate", Some(p))));
    match r.result {
        Some(RpcResult::Terminated(s)) => assert_eq!(s, "S1"),
        _ => panic!("expected a termination result"),
    }
    let out = server.execute_find(&fields(vec![("pattern", "line")]), "S1");
    assert_eq!(out, Err(ToolError::NoPageOpen));
}

#[test]
fn terminate_without_an_id_targets_unknown() {
    let mut server = McpServer::new();
    let r = reply(server.handle_mcp_request(request(2, "session/terminate", None)));
    match r.result {
        Some(RpcResult::Terminated(s)) => assert_eq!(s, "unknown"),
        _ => panic!("expected a termination result"),
    }
}

#[test]
fn session_delete_checks_the_id() {
    let mut server = McpServer::new();
    let mut a = Arguments::new();
    a.set("url".to_string(), ArgValue::Str("u".to_string()));
    let req = server.begin_open(&a, "S1").unwrap();
    server.finish_open("S1", &req, &"x".to_string()).unwrap();
    assert!(!server.handle_session_delete(""));
    assert!(!server.handle_session_delete(&"é".repeat(101)));
    assert!(server.handle_session_delete(&"é".repeat(100)));
    assert!(server.begin_open(&a, "S1").unwrap().cached.is_some());
    assert!(server.handle_session_delete("S1"));
    assert!(server.begin_open(&a, "S1").unwrap().cached.is_none());
}

#[test]
fn error_kind_codes_are_distinct() {
    let codes: Vec<i32> = [
        ErrorKind::ParseError,
        ErrorKind::InvalidRequest,
        ErrorKind::MethodNotFound,
        ErrorKind::InvalidParams,
        ErrorKind::InternalError,
    ]
    .iter()
    .map(|k| k.code())
    .collect();
    assert_eq!(codes, vec![-32700, -32600, -32601, -32602, -32603]);
}

#[test]
fn missing_version_is_an_invalid_request() {
    let mut server = McpServer::new();
    let q = JsonRpcRequest { jsonrpc: None, id: Some(Value::from(8)), method: "ping".to_string(), params: None };
    let r = reply(server.handle_mcp_request(Incoming::Request(q)));
    assert_eq!(r.id, Some(Value::from(8)));
    assert_eq!(
        error_of(&r),
        (-32600, "Invalid Request".to_string(), "JSON-RPC version must be 2.0".to_string())
    );
}

#[test]
fn missing_tool_argument_is_invalid_params() {
    let mut server = McpServer::new();
    let p = Params { fields: fields(vec![("name", "open")]), arguments: Arguments::new() };
    let call = match server.handle_mcp_request(request(6, "tools/call", Some(p))) {
        Dispatch::Call(c) => c,
        Dispatch::Reply(_) => panic!("expected a tool call"),
    };
    let outcome = server.begin_open(&call.arguments, "S").map(|_| String::new());
    let r = McpServer::tool_response(call.id, outcome);
    assert_eq!(r.id, Some(Value::from(6)));
    assert_eq!(
        error_of(&r),
        (-32602, "Invalid params".to_string(), "Missing required parameter: url".to_string())
    );
    let r = McpServer::tool_response(None, Err(ToolError::MissingParameter(browser_mcp::error::Param::Query)));
    assert_eq!(error_of(&r).0, -32602);
    let r = McpServer::tool_response(None, Err(ToolError::EmptyQuery));
    assert_eq!(error_of(&r).0, -32603);
}
