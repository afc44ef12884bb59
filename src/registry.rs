//! The catalogue of tools: names, descriptions and input schemas.
use vstd::prelude::*;
use crate::text::same_text;

verus! {

/// The three tools.
#[derive(PartialEq, Eq, Structural, Clone, Copy, Debug)]
pub enum Tool {
    Search,
    Open,
    Find,
}

impl Tool {
    /// The name a caller uses for the tool.
    pub open spec fn spec_name(self) -> Seq<char> {
        match self {
            Tool::Search => "search"@,
            Tool::Open => "open"@,
            Tool::Find => "find"@,
        }
    }
}

/// The tool called `name`, if any.
pub open spec fn tool_of(name: Seq<char>) -> Option<Tool> {
    if name == "search"@ {
        Some(Tool::Search)
    } else if name == "open"@ {
        Some(Tool::Open)
    } else if name == "find"@ {
        Some(Tool::Find)
    } else {
        None
    }
}

/// The tool called `name`, if any.
pub fn tool_named(name: &String) -> (r: Option<Tool>)
    ensures
        r == tool_of(name@),
{
    if same_text(name, "search") {
        Some(Tool::Search)
    } else if same_text(name, "open") {
        Some(Tool::Open)
    } else if same_text(name, "find") {
        Some(Tool::Find)
    } else {
        None
    }
}

/// One property of a tool's input schema: its JSON type and its default.
pub struct ToolProperty {
    pub name: String,
    pub kind: String,
    pub description: String,
    pub default: Option<i64>,
}

/// A tool as `tools/list` describes it.
pub struct ToolDefinition {
    pub name: String,
    pub description: String,
    pub properties: Vec<ToolProperty>,
    pub required: Vec<String>,
}

/// `p` is a property named `name` of JSON type `kind` with default `default`.
pub open spec fn property_is(p: ToolProperty, name: Seq<char>, kind: Seq<char>, default: Option<i64>) -> bool {
    p.name@ == name && p.kind@ == kind && p.default == default
}

/// `d` describes `tool` with the given properties and one required argument.
pub open spec fn definition_is(d: ToolDefinition, tool: Tool, props: Seq<(Seq<char>, Seq<char>, Option<i64>)>, required: Seq<char>) -> bool {
    &&& d.name@ == tool.spec_name()
    &&& d.properties@.len() == props.len()
    &&& forall|i: int| 0 <= i < props.len() ==> property_is(#[trigger] d.properties@[i], props[i].0, props[i].1, props[i].2)
    &&& d.required@.len() == 1
    &&& d.required@[0]@ == required
}

/// The catalogue: `search`, `open` and `find` with their schemas.
pub open spec fn is_catalogue(v: Seq<ToolDefinition>) -> bool {
    &&& v.len() == 3
    &&& definition_is(v[0], Tool::Search, seq![("query"@, "string"@, None), ("topn"@, "number"@, Some(10i64))], "query"@)
    &&& definition_is(v[1], Tool::Open, seq![("url"@, "string"@, None), ("loc"@, "number"@, Some(0i64)), ("num_lines"@, "number"@, Some(-1i64))], "url"@)
    &&& definition_is(v[2], Tool::Find, seq![("pattern"@, "string"@, None), ("url"@, "string"@, None)], "pattern"@)
}

fn property(name: &str, kind: &str, description: &str, default: Option<i64>) -> (r: ToolProperty)
    ensures
        property_is(r, name@, kind@, default),
        r.description@ == description@,
{
    ToolProperty { name: name.to_owned(), kind: kind.to_owned(), description: description.to_owned(), default }
}

/// Every tool with its input schema.
pub fn tool_definitions() -> (r: Vec<ToolDefinition>)
    ensures
        is_catalogue(r@),
{
    let search = ToolDefinition {
        name: "search".to_owned(),
        description: "Search for information on the web and return formatted results with citations".to_owned(),
        properties: vec![
            property("query", "string", "Search query", None),
            property("topn", "number", "Number of results to return (default: 10)", Some(10)),
        ],
        required: vec!["query".to_owned()],
    };
    let open = ToolDefinition {
        name: "open".to_owned(),
        description: "Open a web page by URL and return its content with line numbers for citation".to_owned(),
        properties: vec![
            property("url", "string", "URL to open", None),
            property("loc", "number", "Starting line number (default: 0)", Some(0)),
            property("num_lines", "number", "Number of lines to show (-1 for all)", Some(-1)),
        ],
        required: vec!["url".to_owned()],
    };
    let find = ToolDefinition {
        name: "find".to_owned(),
        description: "Find specific text patterns in the currently opened page".to_owned(),
        properties: vec![
            property("pattern", "string", "Text pattern to search for", None),
            property("url", "string", "URL of the page to search in (optional if using after open)", None),
        ],
        required: vec!["pattern".to_owned()],
    };
    let r = vec![search, open, find];
    assert(definition_is(r@[0], Tool::Search, seq![("query"@, "string"@, None), ("topn"@, "number"@, Some(10i64))], "query"@));
    assert(definition_is(r@[1], Tool::Open, seq![("url"@, "string"@, None), ("loc"@, "number"@, Some(0i64)), ("num_lines"@, "number"@, Some(-1i64))], "url"@));
    assert(definition_is(r@[2], Tool::Find, seq![("pattern"@, "string"@, None), ("url"@, "string"@, None)], "pattern"@));
    r
}

} // verus!
