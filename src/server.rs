//! The server: its session store and the JSON-RPC dispatcher.
use vstd::prelude::*;
use crate::args::{Arguments, arg_str};
use crate::error::{ErrorKind, JsonRpcError, ToolError, tool_message};
use crate::registry::{Tool, ToolDefinition, tool_of, tool_named, tool_definitions, is_catalogue};
use crate::text::same_text;
use crate::session::{SessionStore, SessionView};

verus! {

/// Declares `serde_json::Value`, so that request ids travel through the
/// dispatcher opaque and are echoed unchanged.
#[verifier::external_type_specification]
#[verifier::external_body]
pub struct ExJsonValue(serde_json::Value);

/// The browsing tool server. It owns the store of every session.
pub struct McpServer {
    pub sessions: SessionStore,
}

/// The `params` of a request: its string and integer members, and its
/// `arguments` object (empty where absent or not an object).
pub struct Params {
    pub fields: Arguments,
    pub arguments: Arguments,
}

/// A JSON-RPC request; `jsonrpc` is `None` where the envelope has no version.
pub struct JsonRpcRequest {
    pub jsonrpc: Option<String>,
    pub id: Option<serde_json::Value>,
    pub method: String,
    pub params: Option<Params>,
}

/// One item of a tool's output.
pub struct McpContent {
    pub content_type: String,
    pub text: String,
}

/// The output of a tool call.
pub struct McpToolResult {
    pub content: Vec<McpContent>,
}

/// The result member of a successful response.
pub enum RpcResult {
    /// The capabilities and instructions of the server.
    Initialized,
    ToolList(Vec<ToolDefinition>),
    ToolOutput(McpToolResult),
    /// The liveness answer to `ping`.
    Pong,
    /// The session with this id was removed.
    Terminated(String),
    /// A cancellation notice was received.
    Acknowledged,
}

/// A JSON-RPC response: `result` on success, `error` otherwise.
pub struct JsonRpcResponse {
    pub jsonrpc: String,
    pub id: Option<serde_json::Value>,
    pub result: Option<RpcResult>,
    pub error: Option<JsonRpcError>,
}

/// A request body as it arrived.
pub enum Incoming {
    /// The body could not be read; the text says why.
    Unreadable(String),
    Empty,
    /// The body is not a JSON-RPC request; the text says why.
    Malformed(String),
    Request(JsonRpcRequest),
}

/// A checked tool call, to be run by the tool it names.
pub struct ToolCall {
    pub id: Option<serde_json::Value>,
    pub tool: Tool,
    pub arguments: Arguments,
}

/// What a request leads to: a response now, or a tool call whose outcome
/// `tool_response` turns into one.
pub enum Dispatch {
    Reply(JsonRpcResponse),
    Call(ToolCall),
}

/// `r` is the error response of kind `kind` to `id`, with diagnostic `data`.
pub open spec fn is_error_reply(r: JsonRpcResponse, id: Option<serde_json::Value>, kind: ErrorKind, data: Seq<char>) -> bool {
    &&& r.jsonrpc@ == "2.0"@
    &&& r.id == id
    &&& r.result is None
    &&& match r.error {
        Some(e) => e.code == kind.spec_code() && e.message@ == kind.spec_message() && match e.data {
            Some(d) => d@ == data,
            None => false,
        },
        None => false,
    }
}

/// `r` is a successful response to `id`.
pub open spec fn is_success_reply(r: JsonRpcResponse, id: Option<serde_json::Value>) -> bool {
    &&& r.jsonrpc@ == "2.0"@
    &&& r.id == id
    &&& r.error is None
    &&& r.result is Some
}

/// `d` is the error response of kind `kind` to `id`, with diagnostic `data`.
pub open spec fn replies_error(d: Dispatch, id: Option<serde_json::Value>, kind: ErrorKind, data: Seq<char>) -> bool {
    match d {
        Dispatch::Reply(r) => is_error_reply(r, id, kind, data),
        Dispatch::Call(_) => false,
    }
}

/// `d` answers `id` with success and a result that meets `p`.
pub open spec fn replies_with(d: Dispatch, id: Option<serde_json::Value>, p: spec_fn(RpcResult) -> bool) -> bool {
    match d {
        Dispatch::Reply(r) => is_success_reply(r, id) && p(r.result->Some_0),
        Dispatch::Call(_) => false,
    }
}

/// The error kind that reports a failed tool call.
pub open spec fn tool_error_kind(e: ToolError) -> ErrorKind {
    match e {
        ToolError::MissingParameter(_) => ErrorKind::InvalidParams,
        _ => ErrorKind::InternalError,
    }
}

/// The session that `session/terminate` names: `params.sessionId`, else `"unknown"`.
pub open spec fn terminate_target(q: JsonRpcRequest) -> Seq<char> {
    match q.params {
        Some(p) => match arg_str(p.fields@, "sessionId"@) {
            Some(s) => s,
            None => "unknown"@,
        },
        None => "unknown"@,
    }
}

/// What `tools/call` gives for `q`.
pub open spec fn call_outcome(q: JsonRpcRequest, d: Dispatch) -> bool {
    match q.params {
        None => replies_error(d, q.id, ErrorKind::InvalidParams, "Missing parameters"@),
        Some(p) => match arg_str(p.fields@, "name"@) {
            None => replies_error(d, q.id, ErrorKind::InvalidParams, "Missing tool name"@),
            Some(n) => match tool_of(n) {
                Some(t) => d matches Dispatch::Call(c) && c.id == q.id && c.tool == t
                    && c.arguments@ == p.arguments@,
                None => replies_error(d, q.id, ErrorKind::MethodNotFound, "Unknown tool: "@ + n),
            },
        },
    }
}

/// The methods the server answers.
pub open spec fn is_known_method(m: Seq<char>) -> bool {
    m == "initialize"@ || m == "tools/list"@ || m == "tools/call"@ || m == "ping"@ || m
        == "session/terminate"@ || m == "notifications/cancelled"@
}

/// What the dispatcher gives for a parsed request `q` whose version is right.
pub open spec fn route_outcome(q: JsonRpcRequest, d: Dispatch) -> bool {
    let m = q.method@;
    if m == "initialize"@ {
        replies_with(d, q.id, |x: RpcResult| x is Initialized)
    } else if m == "tools/list"@ {
        replies_with(d, q.id, |x: RpcResult| x matches RpcResult::ToolList(v) && is_catalogue(v@))
    } else if m == "tools/call"@ {
        call_outcome(q, d)
    } else if m == "ping"@ {
        replies_with(d, q.id, |x: RpcResult| x is Pong)
    } else if m == "session/terminate"@ {
        replies_with(d, q.id, |x: RpcResult| x matches RpcResult::Terminated(s) && s@ == terminate_target(q))
    } else if m == "notifications/cancelled"@ {
        replies_with(d, q.id, |x: RpcResult| x is Acknowledged)
    } else {
        replies_error(d, q.id, ErrorKind::MethodNotFound, "Unknown method: "@ + m)
    }
}

/// The request names version `"2.0"`.
pub open spec fn has_version(q: JsonRpcRequest) -> bool {
    q.jsonrpc matches Some(v) && v@ == "2.0"@
}

/// What the dispatcher gives for `incoming`.
pub open spec fn dispatch_outcome(incoming: Incoming, d: Dispatch) -> bool {
    match incoming {
        Incoming::Unreadable(e) => replies_error(d, None, ErrorKind::InvalidRequest, "Failed to read request body: "@ + e@),
        Incoming::Empty => replies_error(d, None, ErrorKind::InvalidRequest, "Empty request body"@),
        Incoming::Malformed(e) => replies_error(d, None, ErrorKind::ParseError, "Invalid JSON: "@ + e@),
        Incoming::Request(q) => if !has_version(q) {
            replies_error(d, q.id, ErrorKind::InvalidRequest, "JSON-RPC version must be 2.0"@)
        } else {
            route_outcome(q, d)
        },
    }
}

/// The session store after `incoming`: only `session/terminate` changes it.
pub open spec fn sessions_after(m: Map<Seq<char>, SessionView>, incoming: Incoming) -> Map<Seq<char>, SessionView> {
    match incoming {
        Incoming::Request(q) => if has_version(q) && q.method@ == "session/terminate"@ {
            m.remove(terminate_target(q))
        } else {
            m
        },
        _ => m,
    }
}

fn prefixed(head: &str, body: &String) -> (r: String)
    ensures
        r@ == head@ + body@,
{
    let mut r = head.to_owned();
    r.append(body.as_str());
    r
}

impl McpServer {
    /// The store is well formed.
    pub open spec fn wf(&self) -> bool {
        self.sessions.wf()
    }

    /// A server without sessions.
    pub fn new() -> (r: McpServer)
        ensures
            r.sessions@ == Map::<Seq<char>, SessionView>::empty(),
            r.wf(),
    {
        McpServer { sessions: SessionStore::new() }
    }

    /// A successful response to `id`.
    pub fn create_success_response(id: Option<serde_json::Value>, result: RpcResult) -> (r: JsonRpcResponse)
        ensures
            r.jsonrpc@ == "2.0"@,
            r.id == id,
            r.result == Some(result),
            r.error is None,
    {
        JsonRpcResponse { jsonrpc: "2.0".to_owned(), id, result: Some(result), error: None }
    }

    /// The error response of kind `kind` to `id`, with diagnostic `data`.
    pub fn create_error_response(id: Option<serde_json::Value>, kind: ErrorKind, data: String) -> (r: JsonRpcResponse)
        ensures
            is_error_reply(r, id, kind, data@),
    {
        let error = JsonRpcError { code: kind.code(), message: kind.message().to_owned(), data: Some(data) };
        JsonRpcResponse { jsonrpc: "2.0".to_owned(), id, result: None, error: Some(error) }
    }

    /// Checks a `tools/call` request and names the tool to run.
    pub fn handle_tools_call(request: JsonRpcRequest) -> (r: Dispatch)
        ensures
            call_outcome(request, r),
    {
        let id = request.id;
        let params = match request.params {
            Some(p) => p,
            None => {
                return Dispatch::Reply(
                    Self::create_error_response(id, ErrorKind::InvalidParams, "Missing parameters".to_owned()),
                )
            },
        };
        let name = match params.fields.get_str("name") {
            Some(n) => n,
            None => {
                return Dispatch::Reply(
                    Self::create_error_response(id, ErrorKind::InvalidParams, "Missing tool name".to_owned()),
                )
            },
        };
        match tool_named(name) {
            Some(tool) => Dispatch::Call(ToolCall { id, tool, arguments: params.arguments }),
            None => {
                let data = prefixed("Unknown tool: ", name);
                Dispatch::Reply(Self::create_error_response(id, ErrorKind::MethodNotFound, data))
            },
        }
    }

    /// The response to a tool call: its text, or its failure, as invalid
    /// params where a required argument is missing and as an internal error otherwise.
    pub fn tool_response(id: Option<serde_json::Value>, outcome: Result<String, ToolError>) -> (r: JsonRpcResponse)
        ensures
            match outcome {
                Ok(t) => is_success_reply(r, id) && (r.result matches Some(RpcResult::ToolOutput(o))
                    && o.content@.len() == 1 && o.content@[0].content_type@ == "text"@
                    && o.content@[0].text == t),
                Err(e) => is_error_reply(r, id, tool_error_kind(e), tool_message(e)),
            },
    {
        match outcome {
            Ok(text) => {
                let item = McpContent { content_type: "text".to_owned(), text };
                Self::create_success_response(id, RpcResult::ToolOutput(McpToolResult { content: vec![item] }))
            },
            Err(e) => {
                let data = e.message();
                let kind = match e {
                    ToolError::MissingParameter(_) => ErrorKind::InvalidParams,
                    _ => ErrorKind::InternalError,
                };
                Self::create_error_response(id, kind, data)
            },
        }
    }

    /// Removes the session that the request names, `"unknown"` by default.
    pub fn handle_session_terminate(&mut self, request: JsonRpcRequest) -> (r: JsonRpcResponse)
        requires
            old(self).wf(),
        ensures
            final(self).wf(),
            final(self).sessions@ == old(self).sessions@.remove(terminate_target(request)),
            is_success_reply(r, request.id),
            r.result matches Some(RpcResult::Terminated(s)) && s@ == terminate_target(request),
    {
        let target: String = match &request.params {
            Some(p) => match p.fields.get_str("sessionId") {
                Some(s) => s.clone(),
                None => "unknown".to_owned(),
            },
            None => "unknown".to_owned(),
        };
        self.sessions.remove(target.as_str());
        Self::create_success_response(request.id, RpcResult::Terminated(target))
    }

    /// Removes session `session_id` for the deletion endpoint. An id that is
    /// empty or longer than 100 characters is refused, and nothing changes.
    pub fn handle_session_delete(&mut self, session_id: &str) -> (r: bool)
        requires
            old(self).wf(),
        ensures
            final(self).wf(),
            r == (0 < session_id@.len() <= 100),
            r ==> final(self).sessions@ == old(self).sessions@.remove(session_id@),
            !r ==> final(self).sessions@ == old(self).sessions@,
    {
        let n = session_id.unicode_len();
        if n == 0 || n > 100 {
            return false;
        }
        self.sessions.remove(session_id);
        true
    }

    /// Answers a request body: every outcome, failures included, is a
    /// well-formed response, except tool calls, which are handed back to run.
    pub fn handle_mcp_request(&mut self, incoming: Incoming) -> (r: Dispatch)
        requires
            old(self).wf(),
        ensures
            final(self).wf(),
            final(self).sessions@ == sessions_after(old(self).sessions@, incoming),
            dispatch_outcome(incoming, r),
    {
        let request = match incoming {
            Incoming::Unreadable(e) => {
                let data = prefixed("Failed to read request body: ", &e);
                return Dispatch::Reply(Self::create_error_response(None, ErrorKind::InvalidRequest, data));
            },
            Incoming::Empty => {
                return Dispatch::Reply(
                    Self::create_error_response(None, ErrorKind::InvalidRequest, "Empty request body".to_owned()),
                );
            },
            Incoming::Malformed(e) => {
                let data = prefixed("Invalid JSON: ", &e);
                return Dispatch::Reply(Self::create_error_response(None, ErrorKind::ParseError, data));
            },
            Incoming::Request(q) => q,
        };
        proof {
            reveal_strlit("initialize");
            reveal_strlit("tools/list");
            reveal_strlit("tools/call");
            reveal_strlit("ping");
            reveal_strlit("session/terminate");
            reveal_strlit("notifications/cancelled");
            assert("initialize"@.len() == 10);
            assert("session/terminate"@.len() == 17);
        }
        let versioned = match &request.jsonrpc {
            Some(v) => same_text(v, "2.0"),
            None => false,
        };
        if !versioned {
            return Dispatch::Reply(
                Self::create_error_response(
                    request.id,
                    ErrorKind::InvalidRequest,
                    "JSON-RPC version must be 2.0".to_owned(),
                ),
            );
        }
        if same_text(&request.method, "initialize") {
            Dispatch::Reply(Self::create_success_response(request.id, RpcResult::Initialized))
        } else if same_text(&request.method, "tools/list") {
            Dispatch::Reply(Self::create_success_response(request.id, RpcResult::ToolList(tool_definitions())))
        } else if same_text(&request.method, "tools/call") {
            Self::handle_tools_call(request)
        } else if same_text(&request.method, "ping") {
            Dispatch::Reply(Self::create_success_response(request.id, RpcResult::Pong))
        } else if same_text(&request.method, "session/terminate") {
            Dispatch::Reply(self.handle_session_terminate(request))
        } else if same_text(&request.method, "notifications/cancelled") {
            Dispatch::Reply(Self::create_success_response(request.id, RpcResult::Acknowledged))
        } else {
            let data = prefixed("Unknown method: ", &request.method);
            Dispatch::Reply(Self::create_error_response(request.id, ErrorKind::MethodNotFound, data))
        }
    }
}

/// A request of the right version whose method the server does not know is
/// answered with the method-not-found error, and its data names the method.
pub proof fn lemma_unknown_method(q: JsonRpcRequest, d: Dispatch)
    requires
        has_version(q),
        !is_known_method(q.method@),
        dispatch_outcome(Incoming::Request(q), d),
    ensures
        d matches Dispatch::Reply(r) && r.id == q.id && r.result is None && (r.error matches Some(e)
            && e.code == -32601i32 && e.data is Some && e.data->Some_0@ == "Unknown method: "@ + q.method@),
{
}

} // verus!
