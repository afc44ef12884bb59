//! The `search` tool: argument checks, the provider query, result selection
//! and the numbered result list.
use vstd::prelude::*;
use crate::args::{Arguments, arg_str, arg_int};
use crate::error::{ToolError, Param};
use crate::fetch::is_success;
use crate::text::{decimal, is_blank, trimmed, push_decimal, blank, trim};

verus! {

/// The search engine's result page, queried by appending the encoded query.
pub const SEARCH_ENDPOINT: &'static str = "https://html.duckduckgo.com/html/?q=";

/// Results returned when the caller names no count.
pub const DEFAULT_TOPN: u64 = 10;

/// The largest number of results returned.
pub const MAX_TOPN: u64 = 50;

/// `s` percent-encoded for a query string, as `urlencoding::encode` does it.
pub uninterp spec fn url_encoded(s: Seq<char>) -> Seq<char>;

/// Relies on `urlencoding::encode`: every byte but ASCII letters, digits and
/// `-_.~` percent-encoded, a function of the input alone.
#[verifier::external_body]
fn url_encode(s: &str) -> (r: String)
    ensures
        r@ == url_encoded(s@),
{
    urlencoding::encode(s).into_owned()
}

/// The number of results for a requested count: 10 by default, else the
/// count clamped to `1..=50`.
pub open spec fn clamp_topn(requested: Option<int>) -> u64 {
    match requested {
        None => DEFAULT_TOPN,
        Some(n) => if n > MAX_TOPN {
            MAX_TOPN
        } else if n < 1 {
            1
        } else {
            n as u64
        },
    }
}

/// A checked `search` call: the query, how many results, and the page to fetch.
pub struct SearchRequest {
    pub query: String,
    pub topn: u64,
    pub url: String,
}

impl crate::server::McpServer {
    /// Checks the arguments of `search` and builds the provider query.
    pub fn begin_search(args: &Arguments) -> (r: Result<SearchRequest, ToolError>)
        ensures
            match arg_str(args@, "query"@) {
                None => r == Err::<SearchRequest, ToolError>(ToolError::MissingParameter(Param::Query)),
                Some(q) => if is_blank(q) {
                    r == Err::<SearchRequest, ToolError>(ToolError::EmptyQuery)
                } else {
                    r matches Ok(s) && s.query@ == q && s.topn == clamp_topn(arg_int(args@, "topn"@))
                        && s.url@ == SEARCH_ENDPOINT@ + url_encoded(q)
                },
            },
    {
        let query = match args.get_str("query") {
            Some(q) => q,
            None => return Err(ToolError::MissingParameter(Param::Query)),
        };
        if blank(query.as_str()) {
            return Err(ToolError::EmptyQuery);
        }
        let topn = clamp(args.get_int("topn"));
        let mut url = SEARCH_ENDPOINT.to_owned();
        let encoded = url_encode(query.as_str());
        url.append(encoded.as_str());
        Ok(SearchRequest { query: query.clone(), topn, url })
    }
}

fn clamp(requested: Option<i128>) -> (r: u64)
    ensures
        r == clamp_topn(
            match requested {
                Some(n) => Some(n as int),
                None => None,
            },
        ),
{
    match requested {
        None => DEFAULT_TOPN,
        Some(n) => if n > MAX_TOPN as i128 {
            MAX_TOPN
        } else if n < 1 {
            1
        } else {
            n as u64
        },
    }
}

/// The number of results is always within `1..=50`: a request of 0 or less
/// gives 1, one above 50 gives 50, and one in between is kept.
pub proof fn lemma_topn_clamped(n: int)
    ensures
        1 <= clamp_topn(Some(n)) <= MAX_TOPN,
        n <= 0 ==> clamp_topn(Some(n)) == 1,
        n > MAX_TOPN ==> clamp_topn(Some(n)) == MAX_TOPN,
        1 <= n <= MAX_TOPN ==> clamp_topn(Some(n)) == n,
{
}

/// Judges the status of the provider's response.
pub fn check_search_status(code: u16, status_text: &String) -> (r: Result<(), ToolError>)
    ensures
        is_success(code) ==> r is Ok,
        !is_success(code) ==> (r matches Err(ToolError::SearchStatus(s)) && s@ == status_text@),
{
    if code < 200 || code >= 300 {
        Err(ToolError::SearchStatus(status_text.clone()))
    } else {
        Ok(())
    }
}

/// One result block of the provider's page, as found: the text and link of
/// its title anchor and the text of its snippet, where present.
pub struct RawResult {
    pub title: Option<String>,
    pub href: Option<String>,
    pub snippet: Option<String>,
}

/// One search result.
pub struct SearchHit {
    pub title: String,
    pub url: String,
    pub snippet: String,
}

/// The result that `raw` gives: title and snippet trimmed, a missing title
/// read as `"Untitled"`, a missing link or snippet as empty.
pub open spec fn hit_of(raw: RawResult) -> (Seq<char>, Seq<char>, Seq<char>) {
    (
        match raw.title {
            Some(t) => trimmed(t@),
            None => "Untitled"@,
        },
        match raw.href {
            Some(h) => h@,
            None => Seq::empty(),
        },
        match raw.snippet {
            Some(s) => trimmed(s@),
            None => Seq::empty(),
        },
    )
}

/// The results of the first `n` blocks of `raws`, those without a link left out.
pub open spec fn selected(raws: Seq<RawResult>, n: nat) -> Seq<(Seq<char>, Seq<char>, Seq<char>)>
    decreases n,
{
    if n == 0 {
        Seq::empty()
    } else {
        let before = selected(raws, (n - 1) as nat);
        let h = hit_of(raws[n - 1]);
        if h.1.len() > 0 {
            before.push(h)
        } else {
            before
        }
    }
}

/// Each result as (title, url, snippet).
pub open spec fn hits_view(v: Seq<SearchHit>) -> Seq<(Seq<char>, Seq<char>, Seq<char>)> {
    v.map_values(|h: SearchHit| (h.title@, h.url@, h.snippet@))
}

fn hit_from(raw: &RawResult) -> (r: SearchHit)
    ensures
        (r.title@, r.url@, r.snippet@) == hit_of(*raw),
{
    let title = match &raw.title {
        Some(t) => trim(t.as_str()),
        None => "Untitled".to_owned(),
    };
    let url = match &raw.href {
        Some(h) => h.clone(),
        None => String::new(),
    };
    let snippet = match &raw.snippet {
        Some(s) => trim(s.as_str()),
        None => String::new(),
    };
    SearchHit { title, url, snippet }
}

impl crate::server::McpServer {
    /// The results of the first `limit` blocks of the provider's page; blocks
    /// without a link are left out.
    pub fn parse_search_results(raws: &Vec<RawResult>, limit: u64) -> (r: Vec<SearchHit>)
        ensures
            hits_view(r@) == selected(
                raws@,
                if limit < raws@.len() {
                    limit as nat
                } else {
                    raws@.len()
                },
            ),
    {
        let n: usize = if limit < raws.len() as u64 {
            limit as usize
        } else {
            raws.len()
        };
        let mut r: Vec<SearchHit> = Vec::new();
        let mut i: usize = 0;
        while i < n
            invariant
                i <= n <= raws@.len(),
                hits_view(r@) == selected(raws@, i as nat),
            decreases n - i,
        {
            let h = hit_from(&raws[i]);
            if h.url.as_str().is_empty() {
                assert(hits_view(r@) =~= selected(raws@, (i + 1) as nat));
            } else {
                r.push(h);
                assert(hits_view(r@) =~= selected(raws@, (i + 1) as nat));
            }
            i = i + 1;
        }
        r
    }
}

/// The block of result number `k` (from 0).
pub open spec fn search_item(k: nat, h: (Seq<char>, Seq<char>, Seq<char>)) -> Seq<char> {
    "**"@ + decimal(k + 1) + ". "@ + h.0 + "**\n"@ + (if h.2.len() > 0 {
        "   "@ + h.2 + "\n"@
    } else {
        Seq::empty()
    }) + "   🔗 "@ + h.1 + "\n\n"@
}

/// The blocks of the first `n` results.
pub open spec fn search_items(hs: Seq<(Seq<char>, Seq<char>, Seq<char>)>, n: nat) -> Seq<char>
    decreases n,
{
    if n == 0 {
        Seq::empty()
    } else {
        search_items(hs, (n - 1) as nat) + search_item((n - 1) as nat, hs[n - 1])
    }
}

/// The text that `search` returns for `query` and results `hs`.
pub open spec fn search_report(query: Seq<char>, hs: Seq<(Seq<char>, Seq<char>, Seq<char>)>) -> Seq<char> {
    if hs.len() == 0 {
        "🔍 No results found for query: \""@ + query
            + "\"\n\n💡 **Suggestions:**\n- Try different search terms\n- Check spelling\n- Use more general terms"@
    } else {
        "🔍 **Search Results for \""@ + query + "\":**\n\n"@ + search_items(hs, hs.len())
            + "💡 **Next steps:**\n- Open specific URLs to view full content\n- Use find to search within opened pages"@
    }
}

fn push_item(out: &mut String, k: usize, h: &SearchHit)
    requires
        k < usize::MAX,
    ensures
        final(out)@ == old(out)@ + search_item(k as nat, (h.title@, h.url@, h.snippet@)),
{
    out.append("**");
    push_decimal(out, (k + 1) as u64);
    out.append(". ");
    out.append(h.title.as_str());
    out.append("**\n");
    if !h.snippet.as_str().is_empty() {
        out.append("   ");
        out.append(h.snippet.as_str());
        out.append("\n");
    }
    out.append("   🔗 ");
    out.append(h.url.as_str());
    out.append("\n\n");
    assert(final(out)@ =~= old(out)@ + search_item(k as nat, (h.title@, h.url@, h.snippet@)));
}

/// The numbered result list for `query`, or the no-results text.
pub fn format_search_results(query: &str, hits: &Vec<SearchHit>) -> (r: String)
    ensures
        r@ == search_report(query@, hits_view(hits@)),
{
    let ghost hs = hits_view(hits@);
    if hits.len() == 0 {
        let mut out = "🔍 No results found for query: \"".to_owned();
        out.append(query);
        out.append("\"\n\n💡 **Suggestions:**\n- Try different search terms\n- Check spelling\n- Use more general terms");
        return out;
    }
    let mut out = "🔍 **Search Results for \"".to_owned();
    out.append(query);
    out.append("\":**\n\n");
    let ghost head = out@;
    let mut k: usize = 0;
    while k < hits.len()
        invariant
            k <= hits@.len(),
            hs == hits_view(hits@),
            out@ == head + search_items(hs, k as nat),
        decreases hits@.len() - k,
    {
        push_item(&mut out, k, &hits[k]);
        assert(hs[k as int] == (hits@[k as int].title@, hits@[k as int].url@, hits@[k as int].snippet@));
        assert(out@ =~= head + search_items(hs, (k + 1) as nat));
        k = k + 1;
    }
    out.append("💡 **Next steps:**\n- Open specific URLs to view full content\n- Use find to search within opened pages");
    assert(out@ =~= search_report(query@, hs));
    out
}

} // verus!
