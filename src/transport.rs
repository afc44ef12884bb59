//! Rules of the serverless transport: the route path of an incoming URI and
//! whether a response body is text.
use vstd::prelude::*;
use crate::text::same_text;

verus! {

/// `p` occurs in `s` at `i`.
pub open spec fn occurs_at(s: Seq<char>, p: Seq<char>, i: int) -> bool {
    0 <= i && i + p.len() <= s.len() && s.subrange(i, i + p.len()) == p
}

/// `s` begins with `p`.
pub open spec fn begins_with(s: Seq<char>, p: Seq<char>) -> bool {
    occurs_at(s, p, 0)
}

/// `i` is the first place where `p` occurs in `s`.
pub open spec fn first_occurrence(s: Seq<char>, p: Seq<char>, i: int) -> bool {
    occurs_at(s, p, i) && forall|j: int| 0 <= j < i ==> !occurs_at(s, p, j)
}

/// `i` is the last place of `c` in `s`.
pub open spec fn last_occurrence(s: Seq<char>, c: char, i: int) -> bool {
    0 <= i < s.len() && s[i] == c && forall|j: int| i < j < s.len() ==> s[j] != c
}

/// `p`, or `"/"` where `p` is empty.
pub open spec fn or_root(p: Seq<char>) -> Seq<char> {
    if p.len() == 0 {
        "/"@
    } else {
        p
    }
}

/// `r` is the route path of `uri`: a full URL keeps what follows its first
/// `"/prod"`, else what follows its last `'/'` (that slash included), else
/// `"/"`; a path drops a leading `"/prod"`; an empty result is `"/"`.
pub open spec fn is_route_path(uri: Seq<char>, r: Seq<char>) -> bool {
    if begins_with(uri, "http"@) {
        if exists|i: int| occurs_at(uri, "/prod"@, i) {
            exists|i: int| first_occurrence(uri, "/prod"@, i) && r == or_root(uri.subrange(i + 5, uri.len() as int))
        } else if exists|i: int| 0 <= i < uri.len() && uri[i] == '/' {
            exists|i: int| last_occurrence(uri, '/', i) && r == uri.subrange(i, uri.len() as int)
        } else {
            r == "/"@
        }
    } else if begins_with(uri, "/prod"@) {
        r == or_root(uri.subrange(5, uri.len() as int))
    } else {
        r == or_root(uri)
    }
}

fn occurs_here(s: &str, n: usize, p: &str, i: usize) -> (r: bool)
    requires
        n == s@.len(),
    ensures
        r == occurs_at(s@, p@, i as int),
{
    let m = p.unicode_len();
    if i > n || m > n - i {
        return false;
    }
    let piece = s.substring_char(i, i + m).to_owned();
    same_text(&piece, p)
}

fn or_root_of(p: &str) -> (r: String)
    ensures
        r@ == or_root(p@),
{
    if p.is_empty() {
        "/".to_owned()
    } else {
        p.to_owned()
    }
}

/// The route path of an incoming URI.
pub fn route_path(uri: &str) -> (r: String)
    ensures
        is_route_path(uri@, r@),
{
    proof {
        reveal_strlit("/prod");
        reveal_strlit("http");
    }
    let n = uri.unicode_len();
    if occurs_here(uri, n, "http", 0) {
        let mut i: usize = 0;
        while i < n
            invariant
                n == uri@.len(),
                "/prod"@.len() == 5,
                begins_with(uri@, "http"@),
                i <= n,
                forall|j: int| 0 <= j < i ==> !occurs_at(uri@, "/prod"@, j),
            decreases n - i,
        {
            if occurs_here(uri, n, "/prod", i) {
                assert(first_occurrence(uri@, "/prod"@, i as int));
                let rest = uri.substring_char(i + 5, n);
                return or_root_of(rest);
            }
            i = i + 1;
        }
        assert(forall|j: int| #![trigger occurs_at(uri@, "/prod"@, j)] !occurs_at(uri@, "/prod"@, j));
        let mut k: usize = n;
        while k > 0
            invariant
                n == uri@.len(),
                begins_with(uri@, "http"@),
                forall|j: int| #![trigger occurs_at(uri@, "/prod"@, j)] !occurs_at(uri@, "/prod"@, j),
                k <= n,
                forall|j: int| k <= j < n ==> uri@[j] != '/',
            decreases k,
        {
            k = k - 1;
            if uri.get_char(k) == '/' {
                let rest = uri.substring_char(k, n);
                assert(last_occurrence(uri@, '/', k as int));
                return rest.to_owned();
            }
        }
        "/".to_owned()
    } else if occurs_here(uri, n, "/prod", 0) {
        or_root_of(uri.substring_char(5, n))
    } else {
        or_root_of(uri)
    }
}

/// A response body is text unless its content type says otherwise: types
/// under `text/`, `application/json` and `application/javascript` are text,
/// and so is a body without a readable content type.
pub fn is_text_content(content_type: Option<&str>) -> (r: bool)
    ensures
        r == match content_type {
            Some(t) => begins_with(t@, "text/"@) || begins_with(t@, "application/json"@)
                || begins_with(t@, "application/javascript"@),
            None => true,
        },
{
    match content_type {
        Some(t) => {
            let n = t.unicode_len();
            occurs_here(t, n, "text/", 0) || occurs_here(t, n, "application/json", 0)
                || occurs_here(t, n, "application/javascript", 0)
        },
        None => true,
    }
}

} // verus!
