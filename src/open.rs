//! The `open` tool: cache policy and line-numbered pagination.
use vstd::prelude::*;
use crate::args::{Arguments, arg_str, arg_u64, arg_i64};
use crate::error::{ToolError, Param};
use crate::session::{SessionView, session_or_empty};
use crate::text::{decimal, lines_of, is_blank, push_decimal, split_lines, blank};

verus! {

/// `n - 1`, or 0 for 0.
pub open spec fn pred(n: nat) -> nat {
    if n == 0 {
        0
    } else {
        (n - 1) as nat
    }
}

/// `"L<n>: <line>"` and a line break.
pub open spec fn numbered(n: nat, line: Seq<char>) -> Seq<char> {
    "L"@ + decimal(n) + ": "@ + line + "\n"@
}

/// Lines `from..to` of `lines`, each numbered.
pub open spec fn numbered_range(lines: Seq<Seq<char>>, from: nat, to: nat) -> Seq<char>
    decreases to,
{
    if to <= from {
        Seq::empty()
    } else {
        numbered_range(lines, from, (to - 1) as nat) + numbered((to - 1) as nat, lines[to - 1])
    }
}

/// The end of the shown range: all lines for `-1`, none past `loc` for
/// another negative count, else at most `num_lines` of them.
pub open spec fn open_end(total: nat, loc: nat, num_lines: int) -> nat {
    if num_lines == -1 {
        total
    } else if num_lines < 0 {
        loc
    } else if loc + num_lines < total {
        (loc + num_lines) as nat
    } else {
        total
    }
}

/// The heading of a listing of `url` from `loc` on.
pub open spec fn listing_head(url: Seq<char>, loc: nat) -> Seq<char> {
    "📄 **"@ + url + "**\n\n"@ + (if loc > 0 {
        "📄 [Starting from line "@ + decimal(loc) + "]\n\n"@
    } else {
        Seq::empty()
    })
}

/// The end of a listing that stops at line `end` of `total`.
pub open spec fn listing_tail(url: Seq<char>, end: nat, total: nat) -> Seq<char> {
    (if end < total {
        "\n📄 [Content truncated at line "@ + decimal(pred(end)) + " of "@ + decimal(pred(total))
            + ". Use loc parameter to continue reading.]"@
    } else {
        Seq::empty()
    }) + "\n\n🔗 **URL:** "@ + url + "\n📊 **Stats:** "@ + decimal(total) + " lines total"@
}

/// The text that `open` shows of `lines`, from `loc` on.
pub open spec fn open_listing(url: Seq<char>, lines: Seq<Seq<char>>, loc: nat, num_lines: int) -> Seq<char> {
    let end = open_end(lines.len(), loc, num_lines);
    listing_head(url, loc) + numbered_range(lines, loc, end) + listing_tail(url, end, lines.len())
}

/// What `open` gives for `content`: the listing, or the error for a start
/// line past the end.
pub open spec fn open_result(url: Seq<char>, content: Seq<char>, loc: u64, num_lines: i64) -> Result<
    Seq<char>,
    ToolError,
> {
    let lines = lines_of(content);
    if loc >= lines.len() {
        Err(ToolError::InvalidLocation { loc, max: pred(lines.len()) as u64 })
    } else {
        Ok(open_listing(url, lines, loc as nat, num_lines as int))
    }
}

/// `r` is the text `t`, or the same failure as `s`.
pub open spec fn agrees(r: Result<String, ToolError>, s: Result<Seq<char>, ToolError>) -> bool {
    match s {
        Ok(t) => r matches Ok(x) && x@ == t,
        Err(e) => r == Err::<String, ToolError>(e),
    }
}

fn push_head(out: &mut String, url: &str, loc: u64)
    ensures
        final(out)@ == old(out)@ + listing_head(url@, loc as nat),
{
    out.append("📄 **");
    out.append(url);
    out.append("**\n\n");
    if loc > 0 {
        out.append("📄 [Starting from line ");
        push_decimal(out, loc);
        out.append("]\n\n");
    }
    assert(final(out)@ =~= old(out)@ + listing_head(url@, loc as nat));
}

fn push_tail(out: &mut String, url: &str, end: u64, total: u64)
    ensures
        final(out)@ == old(out)@ + listing_tail(url@, end as nat, total as nat),
{
    if end < total {
        out.append("\n📄 [Content truncated at line ");
        push_decimal(out, if end == 0 { 0 } else { end - 1 });
        out.append(" of ");
        push_decimal(out, total - 1);
        out.append(". Use loc parameter to continue reading.]");
    }
    out.append("\n\n🔗 **URL:** ");
    out.append(url);
    out.append("\n📊 **Stats:** ");
    push_decimal(out, total);
    out.append(" lines total");
    assert(final(out)@ =~= old(out)@ + listing_tail(url@, end as nat, total as nat));
}

fn push_numbered(out: &mut String, n: usize, line: &str)
    ensures
        final(out)@ == old(out)@ + numbered(n as nat, line@),
{
    out.append("L");
    push_decimal(out, n as u64);
    out.append(": ");
    out.append(line);
    out.append("\n");
    assert(final(out)@ =~= old(out)@ + numbered(n as nat, line@));
}

fn push_range(out: &mut String, lines: &Vec<String>, from: usize, to: usize)
    requires
        from <= to <= lines@.len(),
    ensures
        final(out)@ == old(out)@ + numbered_range(lines.deep_view(), from as nat, to as nat),
{
    let ghost ls = lines.deep_view();
    let mut i: usize = from;
    while i < to
        invariant
            from <= i <= to <= lines@.len(),
            ls == lines.deep_view(),
            out@ == old(out)@ + numbered_range(ls, from as nat, i as nat),
        decreases to - i,
    {
        push_numbered(out, i, lines[i].as_str());
        assert(ls[i as int] == lines@[i as int]@);
        assert(out@ =~= old(out)@ + numbered_range(ls, from as nat, (i + 1) as nat));
        i = i + 1;
    }
}

/// Renders lines `loc..` of `content` as `open` shows them.
pub fn render_open(url: &str, content: &str, loc: u64, num_lines: i64) -> (r: Result<String, ToolError>)
    ensures
        agrees(r, open_result(url@, content@, loc, num_lines)),
{
    let lines = split_lines(content);
    let total = lines.len();
    if loc >= total as u64 {
        let max: u64 = if total == 0 { 0 } else { (total - 1) as u64 };
        return Err(ToolError::InvalidLocation { loc, max });
    }
    let start = loc as usize;
    let end: usize = if num_lines == -1 {
        total
    } else if num_lines < 0 {
        start
    } else if (num_lines as u64) < (total - start) as u64 {
        start + num_lines as usize
    } else {
        total
    };
    let mut out = String::new();
    push_head(&mut out, url, loc);
    push_range(&mut out, &lines, start, end);
    push_tail(&mut out, url, end as u64, total as u64);
    proof {
        assert(open_end(total as nat, loc as nat, num_lines as int) == end);
        assert(out@ =~= open_listing(url@, lines.deep_view(), loc as nat, num_lines as int));
    }
    Ok(out)
}

} // verus!

verus! {

/// The cached content of `url` in session `id` of `m`.
pub open spec fn cached_page(m: Map<Seq<char>, SessionView>, id: Seq<char>, url: Seq<char>) -> Option<Seq<char>> {
    let s = session_or_empty(m, id);
    if s.pages.contains_key(url) {
        Some(s.pages[url])
    } else {
        None
    }
}

/// The store `m` after session `id` opened `url` with `content`.
pub open spec fn after_open(
    m: Map<Seq<char>, SessionView>,
    id: Seq<char>,
    url: Seq<char>,
    content: Seq<char>,
) -> Map<Seq<char>, SessionView> {
    m.insert(id, session_or_empty(m, id).opened(url, content))
}

/// A checked `open` call. Where `cached` is `None` the page must be fetched.
pub struct OpenRequest {
    pub url: String,
    pub loc: u64,
    pub num_lines: i64,
    pub cached: Option<String>,
}

impl crate::server::McpServer {
    /// Checks the arguments of `open` and looks the page up in the session's cache.
    pub fn begin_open(&self, args: &Arguments, session_id: &str) -> (r: Result<OpenRequest, ToolError>)
        ensures
            match arg_str(args@, "url"@) {
                None => r == Err::<OpenRequest, ToolError>(ToolError::MissingParameter(Param::Url)),
                Some(u) => if is_blank(u) {
                    r == Err::<OpenRequest, ToolError>(ToolError::EmptyUrl)
                } else {
                    r matches Ok(q) && q.url@ == u && q.loc == (match arg_u64(args@, "loc"@) {
                        Some(n) => n,
                        None => 0,
                    }) && q.num_lines == (match arg_i64(args@, "num_lines"@) {
                        Some(n) => n,
                        None => -1i64,
                    }) && match q.cached {
                        Some(c) => cached_page(self.sessions@, session_id@, u) == Some(c@),
                        None => cached_page(self.sessions@, session_id@, u) is None,
                    }
                },
            },
    {
        let url = match args.get_str("url") {
            Some(u) => u,
            None => return Err(ToolError::MissingParameter(Param::Url)),
        };
        if blank(url.as_str()) {
            return Err(ToolError::EmptyUrl);
        }
        let loc = match args.get_u64("loc") {
            Some(n) => n,
            None => 0,
        };
        let num_lines = match args.get_i64("num_lines") {
            Some(n) => n,
            None => -1,
        };
        let cached = match self.sessions.snapshot(session_id) {
            Some(s) => match s.page(url.as_str()) {
                Some(c) => Some(c.clone()),
                None => None,
            },
            None => None,
        };
        Ok(OpenRequest { url: url.clone(), loc, num_lines, cached })
    }

    /// Records the page of `req` with `content` in the session, then lists it.
    pub fn finish_open(&mut self, session_id: &str, req: &OpenRequest, content: &String) -> (r: Result<String, ToolError>)
        requires
            old(self).wf(),
        ensures
            final(self).wf(),
            final(self).sessions@ == after_open(old(self).sessions@, session_id@, req.url@, content@),
            agrees(r, open_result(req.url@, content@, req.loc, req.num_lines)),
    {
        self.sessions.record_open(session_id, req.url.as_str(), content);
        render_open(req.url.as_str(), content.as_str(), req.loc, req.num_lines)
    }
}

/// Opening a page caches it: a second `open` of the same URL in the same
/// session finds the content there and needs no fetch, and recording it
/// again changes nothing.
pub proof fn lemma_reopen_uses_cache(
    m: Map<Seq<char>, SessionView>,
    id: Seq<char>,
    url: Seq<char>,
    content: Seq<char>,
)
    ensures
        cached_page(after_open(m, id, url, content), id, url) == Some(content),
        after_open(after_open(m, id, url, content), id, url, content) == after_open(
            m,
            id,
            url,
            content,
        ),
{
    let m1 = after_open(m, id, url, content);
    assert(session_or_empty(m1, id) == session_or_empty(m, id).opened(url, content));
    assert(session_or_empty(m1, id).opened(url, content).pages =~= session_or_empty(m1, id).pages);
    assert(after_open(m1, id, url, content) =~= m1);
}

/// `open` past the last line fails and names the last valid line.
pub proof fn lemma_open_past_end(url: Seq<char>, content: Seq<char>, loc: u64, num_lines: i64)
    requires
        lines_of(content).len() > 0,
        loc >= lines_of(content).len(),
    ensures
        open_result(url, content, loc, num_lines) == Err::<Seq<char>, ToolError>(
            ToolError::InvalidLocation { loc, max: (lines_of(content).len() - 1) as u64 },
        ),
{
}

} // verus!
