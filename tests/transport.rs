use browser_mcp::transport::{is_text_content, route_path};

#[test]
fn full_urls_keep_what_follows_the_stage() {
    assert_eq!(route_path("https://x.execute-api.test/prod/mcp"), "/mcp");
    assert_eq!(route_path("https://x.execute-api.test/prod"), "/");
    assert_eq!(route_path("https://x.test/a/health"), "/health");
    assert_eq!(route_path("http:x"), "/");
}

#[test]
fn paths_drop_the_stage_prefix() {
    assert_eq!(route_path("/prod/sessions/abc"), "/sessions/abc");
    assert_eq!(route_path("/prod"), "/");
    assert_eq!(route_path("/mcp"), "/mcp");
    assert_eq!(route_path(""), "/");
}

#[test]
fn text_bodies_are_recognised() {
    assert!(is_text_content(Some("application/json; charset=utf-8")));
    assert!(is_text_content(Some("text/html")));
    assert!(is_text_content(None));
    assert!(!is_text_content(Some("image/png")));
}
