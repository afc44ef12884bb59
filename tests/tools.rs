use browser_mcp::args::{ArgValue, Arguments};
use browser_mcp::error::{ErrorKind, Param, ToolError};
use browser_mcp::fetch::{check_page_status, page_text};
use browser_mcp::find::matching_folded_lines;
use browser_mcp::open::render_open;
use browser_mcp::search::{check_search_status, format_search_results, RawResult, SearchHit};
use browser_mcp::server::McpServer;

fn args(pairs: Vec<(&str, ArgValue)>) -> Arguments {
    let mut a = Arguments::new();
    for (k, v) in pairs {
        a.set(k.to_string(), v);
    }
    a
}

fn text(s: &str) -> ArgValue {
    ArgValue::Str(s.to_string())
}

const PAGE: &str = "line0\nline1\nFOO here\nline3";

fn open_with(server: &mut McpServer, sid: &str, a: &Arguments, fetched: &str) -> (bool, Result<String, ToolError>) {
    let req = server.begin_open(a, sid).expect("arguments are valid");
    let was_cached = req.cached.is_some();
    let content = match &req.cached {
        Some(c) => c.clone(),
        None => fetched.to_string(),
    };
    (was_cached, server.finish_open(sid, &req, &content))
}

#[test]
fn open_lists_every_line_with_numbers() {
    let mut server = McpServer::new();
    let (cached, out) = open_with(&mut server, "S1", &args(vec![("url", text("https://a.test"))]), PAGE);
    assert!(!cached);
    let out = out.unwrap();
    assert_eq!(
        out,
        "📄 **https://a.test**\n\nL0: line0\nL1: line1\nL2: FOO here\nL3: line3\n\n\n🔗 **URL:** https://a.test\n📊 **Stats:** 4 lines total"
    );
    assert!(!out.contains("truncated"));
}

#[test]
fn find_after_open_marks_the_match_with_context() {
    let mut server = McpServer::new();
    open_with(&mut server, "S1", &args(vec![("url", text("https://a.test"))]), PAGE).1.unwrap();
    let out = server.execute_find(&args(vec![("pattern", text("foo"))]), "S1").unwrap();
    assert_eq!(
        out,
        "🔎 **Found 1 match(es) for 'foo' in https://a.test:**\n\n**Match 1 at line 2:**\nL0: line0\nL1: line1\nL2: >>> FOO here <<<\nL3: line3\n\n💡 Use the line numbers to navigate to specific matches."
    );
}

#[test]
fn reopening_uses_the_cache_and_gives_the_same_text() {
    let mut server = McpServer::new();
    let a = args(vec![("url", text("https://a.test"))]);
    let (first_cached, first) = open_with(&mut server, "S1", &a, PAGE);
    let (second_cached, second) = open_with(&mut server, "S1", &a, "something else entirely");
    assert!(!first_cached);
    assert!(second_cached);
    assert_eq!(first.unwrap(), second.unwrap());
}

#[test]
fn cache_is_per_session_and_per_exact_url() {
    let mut server = McpServer::new();
    open_with(&mut server, "S1", &args(vec![("url", text("https://a.test"))]), PAGE).1.unwrap();
    let other_session = server.begin_open(&args(vec![("url", text("https://a.test"))]), "S2").unwrap();
    assert!(other_session.cached.is_none());
    let other_url = server.begin_open(&args(vec![("url", text("https://a.test/"))]), "S1").unwrap();
    assert!(other_url.cached.is_none());
}

#[test]
fn open_past_the_end_reports_the_last_line() {
    let mut server = McpServer::new();
    let a = args(vec![("url", text("https://a.test")), ("loc", ArgValue::PosInt(4))]);
    let (_, out) = open_with(&mut server, "S1", &a, PAGE);
    let err = out.unwrap_err();
    assert_eq!(err, ToolError::InvalidLocation { loc: 4, max: 3 });
    assert_eq!(err.message(), "❌ Invalid location parameter: 4. Cannot exceed page maximum of 3.");
    let find = server.execute_find(&args(vec![("pattern", text("line"))]), "S1");
    assert!(find.is_ok(), "the page was recorded before the range check");
}

#[test]
fn open_of_empty_content_fails_at_line_zero() {
    assert_eq!(
        render_open("u", "", 0, -1),
        Err(ToolError::InvalidLocation { loc: 0, max: 0 })
    );
}

#[test]
fn open_with_a_window_adds_the_truncation_notice() {
    let out = render_open("https://a.test", PAGE, 1, 2).unwrap();
    assert_eq!(
        out,
        "📄 **https://a.test**\n\n📄 [Starting from line 1]\n\nL1: line1\nL2: FOO here\n\n📄 [Content truncated at line 2 of 3. Use loc parameter to continue reading.]\n\n🔗 **URL:** https://a.test\n📊 **Stats:** 4 lines total"
    );
}

#[test]
fn open_window_past_the_end_is_cut_at_the_end() {
    let out = render_open("u", PAGE, 2, 100).unwrap();
    assert!(out.contains("L2: FOO here\nL3: line3\n"));
    assert!(!out.contains("truncated"));
}

#[test]
fn open_splits_crlf_lines() {
    let out = render_open("u", "a\r\nb\n", 0, -1).unwrap();
    assert!(out.contains("L0: a\nL1: b\n"));
    assert!(out.ends_with("2 lines total"));
}

#[test]
fn open_argument_errors() {
    let server = McpServer::new();
    assert_eq!(
        server.begin_open(&Arguments::new(), "S").err(),
        Some(ToolError::MissingParameter(Param::Url))
    );
    assert_eq!(
        server.begin_open(&args(vec![("url", text("  "))]), "S").err(),
        Some(ToolError::EmptyUrl)
    );
    assert_eq!(
        server.begin_open(&args(vec![("url", ArgValue::PosInt(3))]), "S").err(),
        Some(ToolError::MissingParameter(Param::Url))
    );
}

#[test]
fn open_defaults_and_number_forms() {
    let server = McpServer::new();
    let req = server.begin_open(&args(vec![("url", text("u"))]), "S").unwrap();
    assert_eq!((req.loc, req.num_lines), (0, -1));
    let req = server
        .begin_open(&args(vec![("url", text("u")), ("loc", ArgValue::NegInt(-3)), ("num_lines", ArgValue::PosInt(5))]), "S")
        .unwrap();
    assert_eq!((req.loc, req.num_lines), (0, 5));
    let req = server
        .begin_open(&args(vec![("url", text("u")), ("num_lines", ArgValue::PosInt(u64::MAX))]), "S")
        .unwrap();
    assert_eq!(req.num_lines, -1);
}

#[test]
fn find_in_a_fresh_session_needs_an_open_page() {
    let mut server = McpServer::new();
    let out = server.execute_find(&args(vec![("pattern", text("x"))]), "fresh");
    assert_eq!(out, Err(ToolError::NoPageOpen));
    assert_eq!(
        out.unwrap_err().message(),
        "❌ No page is currently open.\nPlease open a page first using the 'open' tool."
    );
}

#[test]
fn find_with_an_unopened_url_fails() {
    let mut server = McpServer::new();
    let out = server.execute_find(&args(vec![("pattern", text("x")), ("url", text("https://b.test"))]), "S1");
    assert_eq!(out, Err(ToolError::PageNotInSession("https://b.test".to_string())));
    assert_eq!(
        ToolError::PageNotInSession("https://b.test".to_string()).message(),
        "❌ Page not found in session: https://b.test\nPlease open the page first."
    );
}

#[test]
fn find_with_an_explicit_cached_url() {
    let mut server = McpServer::new();
    open_with(&mut server, "S1", &args(vec![("url", text("https://a.test"))]), PAGE).1.unwrap();
    open_with(&mut server, "S1", &args(vec![("url", text("https://b.test"))]), "zzz").1.unwrap();
    let out = server
        .execute_find(&args(vec![("pattern", text("LINE3")), ("url", text("https://a.test"))]), "S1")
        .unwrap();
    assert!(out.starts_with("🔎 **Found 1 match(es) for 'LINE3' in https://a.test:**"));
    assert!(out.contains("**Match 1 at line 3:**\nL1: line1\nL2: FOO here\nL3: >>> line3 <<<\n\n"));
}

#[test]
fn find_pattern_errors() {
    let mut server = McpServer::new();
    assert_eq!(
        server.execute_find(&Arguments::new(), "S"),
        Err(ToolError::MissingParameter(Param::Pattern))
    );
    assert_eq!(
        server.execute_find(&args(vec![("pattern", text(" \t"))]), "S"),
        Err(ToolError::EmptyPattern)
    );
}

#[test]
fn find_without_matches_suggests_changes() {
    let mut server = McpServer::new();
    open_with(&mut server, "S1", &args(vec![("url", text("https://a.test"))]), PAGE).1.unwrap();
    let out = server.execute_find(&args(vec![("pattern", text("absent"))]), "S1").unwrap();
    assert_eq!(
        out,
        "🔎 No matches found for pattern: 'absent'\n\n💡 **Suggestions:**\n- Check spelling\n- Try a different search term\n- Use partial words or phrases"
    );
}

#[test]
fn find_shows_ten_matches_and_counts_the_rest() {
    let mut server = McpServer::new();
    let page: Vec<String> = (0..13).map(|i| format!("hit {}", i)).collect();
    open_with(&mut server, "S1", &args(vec![("url", text("u"))]), &page.join("\n")).1.unwrap();
    let out = server.execute_find(&args(vec![("pattern", text("HIT"))]), "S1").unwrap();
    assert!(out.starts_with("🔎 **Found 13 match(es) for 'HIT' in u:**"));
    assert!(out.contains("**Match 10 at line 9:**"));
    assert!(!out.contains("**Match 11"));
    assert!(out.contains("... and 3 more matches (showing first 10)\n\n💡 Use the line numbers"));
    assert!(out.contains("**Match 1 at line 0:**\nL0: >>> hit 0 <<<\nL1: hit 1\nL2: hit 2\n\n"));
}

#[test]
fn search_request_checks_and_clamps() {
    let zero = McpServer::begin_search(&args(vec![("query", text("rust")), ("topn", ArgValue::PosInt(0))])).unwrap();
    assert_eq!(zero.topn, 1);
    let big = McpServer::begin_search(&args(vec![("query", text("rust")), ("topn", ArgValue::PosInt(1000))])).unwrap();
    assert_eq!(big.topn, 50);
    let dflt = McpServer::begin_search(&args(vec![("query", text("rust"))])).unwrap();
    assert_eq!(dflt.topn, 10);
    let neg = McpServer::begin_search(&args(vec![("query", text("rust")), ("topn", ArgValue::NegInt(-4))])).unwrap();
    assert_eq!(neg.topn, 1);
    let mid = McpServer::begin_search(&args(vec![("query", text("rust")), ("topn", ArgValue::PosInt(7))])).unwrap();
    assert_eq!(mid.topn, 7);
}

#[test]
fn search_url_is_percent_encoded() {
    let req = McpServer::begin_search(&args(vec![("query", text("a b&c"))])).unwrap();
    assert_eq!(req.url, "https://html.duckduckgo.com/html/?q=a%20b%26c");
    assert_eq!(req.query, "a b&c");
}

#[test]
fn search_query_errors() {
    assert_eq!(
        McpServer::begin_search(&Arguments::new()).err(),
        Some(ToolError::MissingParameter(Param::Query))
    );
    let blank = McpServer::begin_search(&args(vec![("query", text("   "))])).err().unwrap();
    assert_eq!(blank, ToolError::EmptyQuery);
    assert_eq!(blank.message(), "❌ Error: Search query cannot be empty.\n\nPlease provide a search term.");
}

fn raw(title: Option<&str>, href: Option<&str>, snippet: Option<&str>) -> RawResult {
    RawResult {
        title: title.map(|s| s.to_string()),
        href: href.map(|s| s.to_string()),
        snippet: snippet.map(|s| s.to_string()),
    }
}

#[test]
fn search_results_are_cut_trimmed_and_need_a_link() {
    let raws = vec![
        raw(Some("  First  "), Some("https://1.test"), Some("\n one \n")),
        raw(Some("No link"), None, None),
        raw(None, Some("https://3.test"), None),
        raw(Some("Fourth"), Some("https://4.test"), None),
    ];
    let hits = McpServer::parse_search_results(&raws, 3);
    assert_eq!(hits.len(), 2);
    assert_eq!((hits[0].title.as_str(), hits[0].url.as_str(), hits[0].snippet.as_str()), ("First", "https://1.test", "one"));
    assert_eq!((hits[1].title.as_str(), hits[1].url.as_str(), hits[1].snippet.as_str()), ("Untitled", "https://3.test", ""));
    assert_eq!(McpServer::parse_search_results(&raws, 0).len(), 0);
}

#[test]
fn search_results_are_numbered() {
    let hits = vec![
        SearchHit { title: "A".to_string(), url: "https://a".to_string(), snippet: "about a".to_string() },
        SearchHit { title: "B".to_string(), url: "https://b".to_string(), snippet: String::new() },
    ];
    assert_eq!(
        format_search_results("q", &hits),
        "🔍 **Search Results for \"q\":**\n\n**1. A**\n   about a\n   🔗 https://a\n\n**2. B**\n   🔗 https://b\n\n💡 **Next steps:**\n- Open specific URLs to view full content\n- Use find to search within opened pages"
    );
    assert_eq!(
        format_search_results("q", &Vec::new()),
        "🔍 No results found for query: \"q\"\n\n💡 **Suggestions:**\n- Try different search terms\n- Check spelling\n- Use more general terms"
    );
}

#[test]
fn response_statuses_are_judged() {
    let status = "503 Service Unavailable".to_string();
    assert_eq!(check_search_status(200, &status), Ok(()));
    assert_eq!(check_search_status(503, &status), Err(ToolError::SearchStatus(status.clone())));
    assert_eq!(check_page_status("u", 204, &status), Ok(()));
    assert_eq!(check_page_status("u", 404, &status), Err(ToolError::PageNotFound("u".to_string())));
    assert_eq!(check_page_status("u", 503, &status), Err(ToolError::FetchStatus(status.clone())));
    assert_eq!(
        ToolError::FetchStatus(status.clone()).message(),
        "❌ Failed to fetch page: HTTP 503 Service Unavailable\n\nThere may be a temporary issue with the website."
    );
}

#[test]
fn pages_are_converted_from_html() {
    let out = page_text("<html><body><p>Hello <b>world</b></p></body></html>").unwrap();
    assert!(out.contains("Hello"));
    assert!(!out.contains("<p>"));
}

#[test]
fn every_error_has_its_message() {
    let d = "boom".to_string();
    let cases = vec![
        (ToolError::MissingParameter(Param::Query), "Missing required parameter: query"),
        (ToolError::EmptyUrl, "❌ Error: URL is required."),
        (ToolError::EmptyPattern, "❌ Error: Search pattern cannot be empty."),
        (ToolError::ClientSetup(d.clone()), "Failed to create HTTP client: boom"),
        (ToolError::SearchNetwork(d.clone()), "Network error while searching: boom"),
        (ToolError::SearchBody(d.clone()), "Error reading search response: boom"),
        (ToolError::FetchNetwork(d.clone()), "Network error while fetching page: boom"),
        (ToolError::FetchBody(d.clone()), "Error reading page response: boom"),
        (ToolError::HtmlConversion(d.clone()), "Error converting HTML to text: boom"),
        (
            ToolError::SearchStatus(d.clone()),
            "❌ Search request failed with status: boom\n\nThis might be a temporary issue. Please try again later.",
        ),
        (
            ToolError::PageNotFound("u".to_string()),
            "📄 **Page not found:** u\n\nThe URL may be incorrect or the page may no longer exist.",
        ),
    ];
    for (e, m) in cases {
        assert_eq!(e.message(), m);
    }
}

#[test]
fn error_kinds_have_their_codes() {
    let kinds = [
        (ErrorKind::ParseError, -32700, "Parse error"),
        (ErrorKind::InvalidRequest, -32600, "Invalid Request"),
        (ErrorKind::MethodNotFound, -32601, "Method not found"),
        (ErrorKind::InvalidParams, -32602, "Invalid params"),
        (ErrorKind::InternalError, -32603, "Internal error"),
    ];
    for (k, code, msg) in kinds {
        assert_eq!(k.code(), code);
        assert_eq!(k.message(), msg);
    }
}

#[test]
fn folded_lines_are_matched_as_given() {
    let folded = vec!["foo here".to_string(), "FOO there".to_string(), "a foo".to_string(), String::new()];
    assert_eq!(matching_folded_lines(&folded, "foo"), vec![0, 2]);
    assert_eq!(matching_folded_lines(&folded, ""), vec![0, 1, 2, 3]);
    assert_eq!(matching_folded_lines(&Vec::new(), "x"), Vec::<usize>::new());
}

#[test]
fn missing_pattern_leaves_the_store_alone() {
    let mut server = McpServer::new();
    server.execute_find(&Arguments::new(), "S9").unwrap_err();
    let req = server.begin_open(&args(vec![("url", text("u"))]), "S9").unwrap();
    assert!(req.cached.is_none());
}
