//! The `find` tool: case-insensitive line matching with numbered context.
use vstd::prelude::*;
use crate::args::{Arguments, arg_str};
use crate::error::{ToolError, Param};
use crate::open::numbered;
use crate::session::{SessionView, session_or_empty};
use crate::text::{decimal, lines_of, is_blank, occurs_in, lower_of, push_decimal, split_lines, blank, lowercase, contains};

verus! {

/// At most this many matches are shown in full.
pub const SHOWN_MATCHES: usize = 10;

/// `line` holds `pattern`, ignoring case.
pub open spec fn line_matches(line: Seq<char>, pattern: Seq<char>) -> bool {
    occurs_in(lower_of(pattern), lower_of(line))
}

/// The indices below `n` of the lines that match `pattern`, in order.
pub open spec fn matches_below(lines: Seq<Seq<char>>, pattern: Seq<char>, n: nat) -> Seq<nat>
    decreases n,
{
    if n == 0 {
        Seq::empty()
    } else {
        let before = matches_below(lines, pattern, (n - 1) as nat);
        if line_matches(lines[n - 1], pattern) {
            before.push((n - 1) as nat)
        } else {
            before
        }
    }
}

/// Line `j` of `lines` in the context of the match at line `i`: the match
/// itself is marked.
pub open spec fn context_line(lines: Seq<Seq<char>>, i: nat, j: nat) -> Seq<char> {
    if j == i {
        "L"@ + decimal(j) + ": >>> "@ + lines[j as int] + " <<<\n"@
    } else {
        numbered(j, lines[j as int])
    }
}

/// Lines `from..to` in the context of the match at line `i`.
pub open spec fn context_range(lines: Seq<Seq<char>>, i: nat, from: nat, to: nat) -> Seq<char>
    decreases to,
{
    if to <= from {
        Seq::empty()
    } else {
        context_range(lines, i, from, (to - 1) as nat) + context_line(lines, i, (to - 1) as nat)
    }
}

/// The first line of the context window of a match at line `i`.
pub open spec fn window_start(i: nat) -> nat {
    if i >= 2 {
        (i - 2) as nat
    } else {
        0
    }
}

/// The end of the context window of a match at line `i`.
pub open spec fn window_end(i: nat, total: nat) -> nat {
    if i + 3 < total {
        i + 3
    } else {
        total
    }
}

/// The block that shows match number `k` (from 0), at line `i`.
pub open spec fn match_block(lines: Seq<Seq<char>>, k: nat, i: nat) -> Seq<char> {
    "**Match "@ + decimal(k + 1) + " at line "@ + decimal(i) + ":**\n"@ + context_range(
        lines,
        i,
        window_start(i),
        window_end(i, lines.len()),
    ) + "\n"@
}

/// The blocks of the first `n` matches of `ms`.
pub open spec fn match_blocks(lines: Seq<Seq<char>>, ms: Seq<nat>, n: nat) -> Seq<char>
    decreases n,
{
    if n == 0 {
        Seq::empty()
    } else {
        match_blocks(lines, ms, (n - 1) as nat) + match_block(lines, (n - 1) as nat, ms[n - 1])
    }
}

/// The report of `find` for `pattern` in the page `url` with lines `lines`.
pub open spec fn find_report(pattern: Seq<char>, url: Seq<char>, lines: Seq<Seq<char>>) -> Seq<char> {
    let ms = matches_below(lines, pattern, lines.len());
    if ms.len() == 0 {
        "🔎 No matches found for pattern: '"@ + pattern
            + "'\n\n💡 **Suggestions:**\n- Check spelling\n- Try a different search term\n- Use partial words or phrases"@
    } else {
        let shown = if ms.len() > SHOWN_MATCHES {
            SHOWN_MATCHES as nat
        } else {
            ms.len()
        };
        "🔎 **Found "@ + decimal(ms.len()) + " match(es) for '"@ + pattern + "' in "@ + url
            + ":**\n\n"@ + match_blocks(lines, ms, shown) + (if ms.len() > SHOWN_MATCHES {
            "... and "@ + decimal((ms.len() - SHOWN_MATCHES) as nat)
                + " more matches (showing first 10)\n\n"@
        } else {
            Seq::empty()
        }) + "💡 Use the line numbers to navigate to specific matches."@
    }
}

/// `r` is what `find` with `args` gives in session `s`.
pub open spec fn find_outcome(s: SessionView, args: Map<Seq<char>, crate::args::ArgView>, r: Result<String, ToolError>) -> bool {
    match arg_str(args, "pattern"@) {
        None => r == Err::<String, ToolError>(ToolError::MissingParameter(Param::Pattern)),
        Some(p) => if is_blank(p) {
            r == Err::<String, ToolError>(ToolError::EmptyPattern)
        } else {
            match arg_str(args, "url"@) {
                Some(u) => if s.pages.contains_key(u) {
                    r matches Ok(t) && t@ == find_report(p, u, lines_of(s.pages[u]))
                } else {
                    r matches Err(ToolError::PageNotInSession(x)) && x@ == u
                },
                None => match s.current {
                    Some((u, c)) => r matches Ok(t) && t@ == find_report(p, u, lines_of(c)),
                    None => r == Err::<String, ToolError>(ToolError::NoPageOpen),
                },
            }
        },
    }
}

/// The indices below `n` of the lines of `folded` that hold `needle`, in order.
pub open spec fn hits_below(folded: Seq<Seq<char>>, needle: Seq<char>, n: nat) -> Seq<nat>
    decreases n,
{
    if n == 0 {
        Seq::empty()
    } else {
        let before = hits_below(folded, needle, (n - 1) as nat);
        if occurs_in(needle, folded[n - 1]) {
            before.push((n - 1) as nat)
        } else {
            before
        }
    }
}

/// Each line of `lines` in lower case.
pub open spec fn fold_all(lines: Seq<Seq<char>>) -> Seq<Seq<char>> {
    lines.map_values(|l: Seq<char>| lower_of(l))
}

/// Matching ignoring case is matching the lower-case forms.
pub proof fn lemma_matches_are_folded_hits(lines: Seq<Seq<char>>, pattern: Seq<char>, n: nat)
    requires
        n <= lines.len(),
    ensures
        matches_below(lines, pattern, n) == hits_below(fold_all(lines), lower_of(pattern), n),
    decreases n,
{
    if n > 0 {
        lemma_matches_are_folded_hits(lines, pattern, (n - 1) as nat);
        assert(fold_all(lines)[n - 1] == lower_of(lines[n - 1]));
    }
}

/// The indices of the lines of `folded` that hold `needle`, in order. Both
/// are taken as given, already in lower case.
pub fn matching_folded_lines(folded: &Vec<String>, needle: &str) -> (r: Vec<usize>)
    ensures
        r@.map_values(|i: usize| i as nat) == hits_below(folded.deep_view(), needle@, folded@.len() as nat),
        forall|k: int| 0 <= k < r@.len() ==> r@[k] < folded@.len(),
{
    let ghost ls = folded.deep_view();
    let mut r: Vec<usize> = Vec::new();
    let mut i: usize = 0;
    while i < folded.len()
        invariant
            i <= folded@.len(),
            ls == folded.deep_view(),
            r@.map_values(|i: usize| i as nat) == hits_below(ls, needle@, i as nat),
            forall|k: int| 0 <= k < r@.len() ==> r@[k] < i,
        decreases folded@.len() - i,
    {
        assert(ls[i as int] == folded@[i as int]@);
        if contains(folded[i].as_str(), needle) {
            r.push(i);
        }
        assert(r@.map_values(|i: usize| i as nat) =~= hits_below(ls, needle@, (i + 1) as nat));
        i = i + 1;
    }
    r
}

/// The indices of the lines of `lines` that hold `pattern`, ignoring case.
pub fn matching_lines(lines: &Vec<String>, pattern: &str) -> (r: Vec<usize>)
    ensures
        r@.map_values(|i: usize| i as nat) == matches_below(lines.deep_view(), pattern@, lines@.len() as nat),
        forall|k: int| 0 <= k < r@.len() ==> r@[k] < lines@.len(),
{
    let ghost ls = lines.deep_view();
    let mut folded: Vec<String> = Vec::new();
    let mut i: usize = 0;
    while i < lines.len()
        invariant
            i <= lines@.len(),
            ls == lines.deep_view(),
            folded.deep_view() == fold_all(ls).take(i as int),
        decreases lines@.len() - i,
    {
        let low = lowercase(lines[i].as_str());
        assert(ls[i as int] == lines@[i as int]@);
        let ghost before = folded.deep_view();
        folded.push(low);
        assert(folded.deep_view() =~= before.push(lower_of(ls[i as int])));
        assert(fold_all(ls)[i as int] == lower_of(ls[i as int]));
        assert(folded.deep_view() =~= fold_all(ls).take((i + 1) as int));
        i = i + 1;
    }
    assert(folded.deep_view() =~= fold_all(ls));
    let needle = lowercase(pattern);
    proof {
        lemma_matches_are_folded_hits(ls, pattern@, ls.len());
    }
    matching_folded_lines(&folded, needle.as_str())
}

fn push_context_line(out: &mut String, lines: &Vec<String>, i: usize, j: usize)
    requires
        j < lines@.len(),
    ensures
        final(out)@ == old(out)@ + context_line(lines.deep_view(), i as nat, j as nat),
{
    assert(lines.deep_view()[j as int] == lines@[j as int]@);
    out.append("L");
    push_decimal(out, j as u64);
    if j == i {
        out.append(": >>> ");
        out.append(lines[j].as_str());
        out.append(" <<<\n");
    } else {
        out.append(": ");
        out.append(lines[j].as_str());
        out.append("\n");
    }
    assert(final(out)@ =~= old(out)@ + context_line(lines.deep_view(), i as nat, j as nat));
}

fn push_match_block(out: &mut String, lines: &Vec<String>, k: usize, i: usize)
    requires
        i < lines@.len(),
        k < SHOWN_MATCHES,
    ensures
        final(out)@ == old(out)@ + match_block(lines.deep_view(), k as nat, i as nat),
{
    let ghost ls = lines.deep_view();
    out.append("**Match ");
    push_decimal(out, (k + 1) as u64);
    out.append(" at line ");
    push_decimal(out, i as u64);
    out.append(":**\n");
    let ghost head = out@;
    let from: usize = if i >= 2 { i - 2 } else { 0 };
    let to: usize = if lines.len() - i > 3 { i + 3 } else { lines.len() };
    let mut j: usize = from;
    while j < to
        invariant
            from <= j <= to <= lines@.len(),
            ls == lines.deep_view(),
            out@ == head + context_range(ls, i as nat, from as nat, j as nat),
        decreases to - j,
    {
        push_context_line(out, lines, i, j);
        assert(out@ =~= head + context_range(ls, i as nat, from as nat, (j + 1) as nat));
        j = j + 1;
    }
    out.append("\n");
    assert(final(out)@ =~= old(out)@ + match_block(ls, k as nat, i as nat));
}

/// The report of `find` for `pattern` in the page `url` with `content`.
pub fn render_find(pattern: &str, url: &str, content: &str) -> (r: String)
    ensures
        r@ == find_report(pattern@, url@, lines_of(content@)),
{
    let lines = split_lines(content);
    let ms = matching_lines(&lines, pattern);
    let ghost ls = lines.deep_view();
    let ghost msv = ms@.map_values(|i: usize| i as nat);
    if ms.len() == 0 {
        let mut out = "🔎 No matches found for pattern: '".to_owned();
        out.append(pattern);
        out.append("'\n\n💡 **Suggestions:**\n- Check spelling\n- Try a different search term\n- Use partial words or phrases");
        return out;
    }
    let mut out = "🔎 **Found ".to_owned();
    push_decimal(&mut out, ms.len() as u64);
    out.append(" match(es) for '");
    out.append(pattern);
    out.append("' in ");
    out.append(url);
    out.append(":**\n\n");
    let ghost head = out@;
    let shown: usize = if ms.len() > SHOWN_MATCHES { SHOWN_MATCHES } else { ms.len() };
    let mut k: usize = 0;
    while k < shown
        invariant
            k <= shown <= ms@.len(),
            shown <= SHOWN_MATCHES,
            ls == lines.deep_view(),
            msv == ms@.map_values(|i: usize| i as nat),
            forall|q: int| 0 <= q < ms@.len() ==> ms@[q] < lines@.len(),
            out@ == head + match_blocks(ls, msv, k as nat),
        decreases shown - k,
    {
        push_match_block(&mut out, &lines, k, ms[k]);
        assert(msv[k as int] == ms@[k as int] as nat);
        assert(out@ =~= head + match_blocks(ls, msv, (k + 1) as nat));
        k = k + 1;
    }
    if ms.len() > SHOWN_MATCHES {
        out.append("... and ");
        push_decimal(&mut out, (ms.len() - SHOWN_MATCHES) as u64);
        out.append(" more matches (showing first 10)\n\n");
    }
    out.append("💡 Use the line numbers to navigate to specific matches.");
    assert(out@ =~= find_report(pattern@, url@, lines_of(content@)));
    out
}

} // verus!

verus! {

impl crate::server::McpServer {
    /// The `find` tool in session `session_id`. Once the pattern is accepted,
    /// the session is created if it does not exist.
    pub fn execute_find(&mut self, args: &Arguments, session_id: &str) -> (r: Result<String, ToolError>)
        requires
            old(self).wf(),
        ensures
            final(self).wf(),
            final(self).sessions@ == (if arg_str(args@, "pattern"@) matches Some(p) && !is_blank(p) {
                old(self).sessions@.insert(session_id@, session_or_empty(old(self).sessions@, session_id@))
            } else {
                old(self).sessions@
            }),
            find_outcome(session_or_empty(old(self).sessions@, session_id@), args@, r),
    {
        let pattern = match args.get_str("pattern") {
            Some(p) => p,
            None => return Err(ToolError::MissingParameter(Param::Pattern)),
        };
        if blank(pattern.as_str()) {
            return Err(ToolError::EmptyPattern);
        }
        self.sessions.get_or_create(session_id);
        let session = match self.sessions.snapshot(session_id) {
            Some(s) => s,
            None => return Err(ToolError::NoPageOpen),
        };
        match args.get_str("url") {
            Some(u) => match session.page(u.as_str()) {
                Some(c) => Ok(render_find(pattern.as_str(), u.as_str(), c.as_str())),
                None => Err(ToolError::PageNotInSession(u.clone())),
            },
            None => match session.current() {
                Some((u, c)) => Ok(render_find(pattern.as_str(), u.as_str(), c.as_str())),
                None => Err(ToolError::NoPageOpen),
            },
        }
    }
}

/// In a session where nothing was opened, `find` without a URL fails with
/// the error that no page is open.
pub proof fn lemma_find_needs_open(args: Map<Seq<char>, crate::args::ArgView>, r: Result<String, ToolError>)
    requires
        arg_str(args, "url"@) is None,
        arg_str(args, "pattern"@) matches Some(p) && !is_blank(p),
        find_outcome(SessionView::empty(), args, r),
    ensures
        r == Err::<String, ToolError>(ToolError::NoPageOpen),
{
}

/// After session `id` is removed, `find` without a URL in that session
/// behaves as in a fresh session: no page is open.
pub proof fn lemma_find_after_terminate(
    m: Map<Seq<char>, SessionView>,
    id: Seq<char>,
    args: Map<Seq<char>, crate::args::ArgView>,
    r: Result<String, ToolError>,
)
    requires
        arg_str(args, "url"@) is None,
        arg_str(args, "pattern"@) matches Some(p) && !is_blank(p),
        find_outcome(session_or_empty(m.remove(id), id), args, r),
    ensures
        session_or_empty(m.remove(id), id) == SessionView::empty(),
        r == Err::<String, ToolError>(ToolError::NoPageOpen),
{
}

} // verus!
