//! The error taxonomy: JSON-RPC error kinds with their wire codes, and the
//! failures of tool execution with their messages.
use vstd::prelude::*;
use crate::text::{decimal, push_decimal};

verus! {

/// The JSON-RPC error kinds this server reports.
#[derive(PartialEq, Eq, Structural, Clone, Copy, Debug)]
pub enum ErrorKind {
    ParseError,
    InvalidRequest,
    MethodNotFound,
    InvalidParams,
    InternalError,
}

impl ErrorKind {
    /// The wire code of the kind.
    pub open spec fn spec_code(self) -> i32 {
        match self {
            ErrorKind::ParseError => -32700i32,
            ErrorKind::InvalidRequest => -32600i32,
            ErrorKind::MethodNotFound => -32601i32,
            ErrorKind::InvalidParams => -32602i32,
            ErrorKind::InternalError => -32603i32,
        }
    }

    /// The short message of the kind.
    pub open spec fn spec_message(self) -> Seq<char> {
        match self {
            ErrorKind::ParseError => "Parse error"@,
            ErrorKind::InvalidRequest => "Invalid Request"@,
            ErrorKind::MethodNotFound => "Method not found"@,
            ErrorKind::InvalidParams => "Invalid params"@,
            ErrorKind::InternalError => "Internal error"@,
        }
    }

    /// The wire code of the kind.
    pub fn code(&self) -> (r: i32)
        ensures
            r == self.spec_code(),
    {
        match self {
            ErrorKind::ParseError => -32700,
            ErrorKind::InvalidRequest => -32600,
            ErrorKind::MethodNotFound => -32601,
            ErrorKind::InvalidParams => -32602,
            ErrorKind::InternalError => -32603,
        }
    }

    /// The short message of the kind.
    pub fn message(&self) -> (r: &'static str)
        ensures
            r@ == self.spec_message(),
    {
        match self {
            ErrorKind::ParseError => "Parse error",
            ErrorKind::InvalidRequest => "Invalid Request",
            ErrorKind::MethodNotFound => "Method not found",
            ErrorKind::InvalidParams => "Invalid params",
            ErrorKind::InternalError => "Internal error",
        }
    }
}

/// The error object of a JSON-RPC response; `data` holds diagnostic text.
#[derive(Debug)]
pub struct JsonRpcError {
    pub code: i32,
    pub message: String,
    pub data: Option<String>,
}

/// A required tool argument.
#[derive(PartialEq, Eq, Structural, Clone, Copy, Debug)]
pub enum Param {
    Query,
    Url,
    Pattern,
}

impl Param {
    /// The argument's name.
    pub open spec fn spec_name(self) -> Seq<char> {
        match self {
            Param::Query => "query"@,
            Param::Url => "url"@,
            Param::Pattern => "pattern"@,
        }
    }

    /// The argument's name.
    pub fn name(&self) -> (r: &'static str)
        ensures
            r@ == self.spec_name(),
    {
        match self {
            Param::Query => "query",
            Param::Url => "url",
            Param::Pattern => "pattern",
        }
    }
}

#[derive(Debug, PartialEq, Eq)]
/// Why a tool call failed. Variants that carry text from a network client or
/// a converter hold that text as it was given.
pub enum ToolError {
    MissingParameter(Param),
    EmptyQuery,
    EmptyUrl,
    EmptyPattern,
    InvalidLocation { loc: u64, max: u64 },
    PageNotInSession(String),
    NoPageOpen,
    ClientSetup(String),
    SearchNetwork(String),
    SearchStatus(String),
    SearchBody(String),
    FetchNetwork(String),
    PageNotFound(String),
    FetchStatus(String),
    FetchBody(String),
    HtmlConversion(String),
}

/// The text that reports `e` to the caller.
pub open spec fn tool_message(e: ToolError) -> Seq<char> {
    match e {
        ToolError::MissingParameter(p) => "Missing required parameter: "@ + p.spec_name(),
        ToolError::EmptyQuery => "❌ Error: Search query cannot be empty.\n\nPlease provide a search term."@,
        ToolError::EmptyUrl => "❌ Error: URL is required."@,
        ToolError::EmptyPattern => "❌ Error: Search pattern cannot be empty."@,
        ToolError::InvalidLocation { loc, max } => "❌ Invalid location parameter: "@ + decimal(
            loc as nat,
        ) + ". Cannot exceed page maximum of "@ + decimal(max as nat) + "."@,
        ToolError::PageNotInSession(u) => "❌ Page not found in session: "@ + u@
            + "\nPlease open the page first."@,
        ToolError::NoPageOpen => "❌ No page is currently open.\nPlease open a page first using the 'open' tool."@,
        ToolError::ClientSetup(d) => "Failed to create HTTP client: "@ + d@,
        ToolError::SearchNetwork(d) => "Network error while searching: "@ + d@,
        ToolError::SearchStatus(s) => "❌ Search request failed with status: "@ + s@
            + "\n\nThis might be a temporary issue. Please try again later."@,
        ToolError::SearchBody(d) => "Error reading search response: "@ + d@,
        ToolError::FetchNetwork(d) => "Network error while fetching page: "@ + d@,
        ToolError::PageNotFound(u) => "📄 **Page not found:** "@ + u@
            + "\n\nThe URL may be incorrect or the page may no longer exist."@,
        ToolError::FetchStatus(s) => "❌ Failed to fetch page: HTTP "@ + s@
            + "\n\nThere may be a temporary issue with the website."@,
        ToolError::FetchBody(d) => "Error reading page response: "@ + d@,
        ToolError::HtmlConversion(d) => "Error converting HTML to text: "@ + d@,
    }
}

fn framed(head: &str, body: &String, tail: &str) -> (r: String)
    ensures
        r@ == head@ + body@ + tail@,
{
    let mut r = head.to_owned();
    r.append(body.as_str());
    r.append(tail);
    r
}

fn prefixed(head: &str, body: &String) -> (r: String)
    ensures
        r@ == head@ + body@,
{
    let mut r = head.to_owned();
    r.append(body.as_str());
    r
}

impl ToolError {
    /// The text that reports the error to the caller.
    pub fn message(&self) -> (r: String)
        ensures
            r@ == tool_message(*self),
    {
        match self {
            ToolError::MissingParameter(p) => {
                let mut r = "Missing required parameter: ".to_owned();
                r.append(p.name());
                assert(r@ =~= tool_message(*self));
                r
            },
            ToolError::EmptyQuery => "❌ Error: Search query cannot be empty.\n\nPlease provide a search term.".to_owned(),
            ToolError::EmptyUrl => "❌ Error: URL is required.".to_owned(),
            ToolError::EmptyPattern => "❌ Error: Search pattern cannot be empty.".to_owned(),
            ToolError::InvalidLocation { loc, max } => {
                let mut r = "❌ Invalid location parameter: ".to_owned();
                push_decimal(&mut r, *loc);
                r.append(". Cannot exceed page maximum of ");
                push_decimal(&mut r, *max);
                r.append(".");
                assert(r@ =~= tool_message(*self));
                r
            },
            ToolError::PageNotInSession(u) => framed(
                "❌ Page not found in session: ",
                u,
                "\nPlease open the page first.",
            ),
            ToolError::NoPageOpen => "❌ No page is currently open.\nPlease open a page first using the 'open' tool.".to_owned(),
            ToolError::ClientSetup(d) => prefixed("Failed to create HTTP client: ", d),
            ToolError::SearchNetwork(d) => prefixed("Network error while searching: ", d),
            ToolError::SearchStatus(s) => framed(
                "❌ Search request failed with status: ",
                s,
                "\n\nThis might be a temporary issue. Please try again later.",
            ),
            ToolError::SearchBody(d) => prefixed("Error reading search response: ", d),
            ToolError::FetchNetwork(d) => prefixed("Network error while fetching page: ", d),
            ToolError::PageNotFound(u) => framed(
                "📄 **Page not found:** ",
                u,
                "\n\nThe URL may be incorrect or the page may no longer exist.",
            ),
            ToolError::FetchStatus(s) => framed(
                "❌ Failed to fetch page: HTTP ",
                s,
                "\n\nThere may be a temporary issue with the website.",
            ),
            ToolError::FetchBody(d) => prefixed("Error reading page response: ", d),
            ToolError::HtmlConversion(d) => prefixed("Error converting HTML to text: ", d),
        }
    }
}

} // verus!
