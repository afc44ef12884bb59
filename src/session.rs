//! Per-session browsing state and the store that holds it.
use vstd::prelude::*;
use crate::keyed::{assoc, keyed_view, last_index, lookup, remove_key, lemma_assoc_last, lemma_assoc_update, last_with_key};

verus! {

/// What a session holds: the page opened last, with its content, and every
/// page fetched so far, by its exact URL.
pub struct SessionView {
    pub current: Option<(Seq<char>, Seq<char>)>,
    pub pages: Map<Seq<char>, Seq<char>>,
}

impl SessionView {
    /// A session in which nothing was opened.
    pub open spec fn empty() -> SessionView {
        SessionView { current: None, pages: Map::empty() }
    }

    /// The current page is always a cached page, with the cached content.
    pub open spec fn wf(self) -> bool {
        match self.current {
            Some((u, c)) => self.pages.contains_key(u) && self.pages[u] == c,
            None => true,
        }
    }

    /// The session after `url` was opened with `content`.
    pub open spec fn opened(self, url: Seq<char>, content: Seq<char>) -> SessionView {
        SessionView { current: Some((url, content)), pages: self.pages.insert(url, content) }
    }
}

/// Browsing state of one session.
pub struct BrowserSession {
    current_url: Option<String>,
    current_content: Option<String>,
    pages: Vec<(String, String)>,
}

impl View for BrowserSession {
    type V = SessionView;

    closed spec fn view(&self) -> SessionView {
        SessionView {
            current: match (self.current_url, self.current_content) {
                (Some(u), Some(c)) => Some((u@, c@)),
                _ => None,
            },
            pages: assoc(keyed_view(self.pages@)),
        }
    }
}

impl BrowserSession {
    /// A session in which nothing was opened.
    pub fn new() -> (r: BrowserSession)
        ensures
            r@ == SessionView::empty(),
    {
        let r = BrowserSession { current_url: None, current_content: None, pages: Vec::new() };
        assert(r@.pages =~= Map::empty());
        r
    }

    /// The page opened last, and its content.
    pub fn current(&self) -> (r: Option<(&String, &String)>)
        ensures
            match r {
                Some((u, c)) => self@.current == Some((u@, c@)),
                None => self@.current is None,
            },
    {
        match (&self.current_url, &self.current_content) {
            (Some(u), Some(c)) => Some((u, c)),
            _ => None,
        }
    }

    /// The cached content of `url`.
    pub fn page(&self, url: &str) -> (r: Option<&String>)
        ensures
            match r {
                Some(c) => self@.pages.contains_key(url@) && self@.pages[url@] == c@,
                None => !self@.pages.contains_key(url@),
            },
    {
        lookup(&self.pages, url)
    }

    /// Makes `url`, with `content`, the current page and caches it.
    pub fn record_open(&mut self, url: &str, content: &String)
        requires
            old(self)@.wf(),
        ensures
            final(self)@ == old(self)@.opened(url@, content@),
            final(self)@.wf(),
    {
        let entry = (url.to_owned(), content.clone());
        match last_index(&self.pages, url) {
            Some(i) => {
                let ghost before = self.pages@;
                self.pages.remove(i);
                self.pages.insert(i, entry);
                proof {
                    assert(self.pages@ =~= before.update(i as int, entry));
                    assert(keyed_view(self.pages@) =~= keyed_view(before).update(
                        i as int,
                        (url@, content@),
                    ));
                    lemma_assoc_update(keyed_view(before), url@, i as int, content@);
                }
            },
            None => {
                let ghost before = self.pages@;
                self.pages.push(entry);
                proof {
                    let kv = keyed_view(self.pages@);
                    assert(kv.drop_last() =~= keyed_view(before));
                    assert(kv.last() == (url@, content@));
                }
            },
        }
        self.current_url = Some(url.to_owned());
        self.current_content = Some(content.clone());
        assert(self@.pages =~= old(self)@.pages.insert(url@, content@));
    }
}

impl Default for BrowserSession {
    fn default() -> (r: BrowserSession)
        ensures
            r@ == SessionView::empty(),
    {
        BrowserSession::new()
    }
}

/// The session `id` in `m`, or an empty one where `m` has none.
pub open spec fn session_or_empty(m: Map<Seq<char>, SessionView>, id: Seq<char>) -> SessionView {
    if m.contains_key(id) {
        m[id]
    } else {
        SessionView::empty()
    }
}

/// Every session of the process, by session id.
pub struct SessionStore {
    sessions: Vec<(String, BrowserSession)>,
}

impl View for SessionStore {
    type V = Map<Seq<char>, SessionView>;

    closed spec fn view(&self) -> Map<Seq<char>, SessionView> {
        assoc(keyed_view(self.sessions@))
    }
}

impl SessionStore {
    /// Every session is well formed.
    pub open spec fn wf(&self) -> bool {
        forall|k: Seq<char>| #[trigger] self@.contains_key(k) ==> self@[k].wf()
    }

    /// A store without sessions.
    pub fn new() -> (r: SessionStore)
        ensures
            r@ == Map::<Seq<char>, SessionView>::empty(),
            r.wf(),
    {
        let r = SessionStore { sessions: Vec::new() };
        assert(r@ =~= Map::empty());
        r
    }

    /// The session `id`, if it exists: a read-only view for decisions.
    pub fn snapshot(&self, id: &str) -> (r: Option<&BrowserSession>)
        ensures
            match r {
                Some(s) => self@.contains_key(id@) && self@[id@] == s@,
                None => !self@.contains_key(id@),
            },
    {
        lookup(&self.sessions, id)
    }

    /// Makes sure that the session `id` exists, creating an empty one if not.
    pub fn get_or_create(&mut self, id: &str)
        requires
            old(self).wf(),
        ensures
            final(self)@ == old(self)@.insert(id@, session_or_empty(old(self)@, id@)),
            final(self).wf(),
    {
        if last_index(&self.sessions, id).is_none() {
            proof {
                crate::keyed::lemma_assoc_absent(keyed_view(self.sessions@), id@);
            }
            let ghost before = self.sessions@;
            self.sessions.push((id.to_owned(), BrowserSession::new()));
            proof {
                let kv = keyed_view(self.sessions@);
                assert(kv.drop_last() =~= keyed_view(before));
            }
        } else {
            assert(self@.contains_key(id@)) by {
                let i = choose|i: int| last_with_key(keyed_view(self.sessions@), id@, i);
                lemma_assoc_last(keyed_view(self.sessions@), id@, i);
            }
        }
        assert(self@ =~= old(self)@.insert(id@, session_or_empty(old(self)@, id@)));
    }

    /// Opens `url` with `content` in session `id`, creating the session if needed.
    pub fn record_open(&mut self, id: &str, url: &str, content: &String)
        requires
            old(self).wf(),
        ensures
            final(self)@ == old(self)@.insert(
                id@,
                session_or_empty(old(self)@, id@).opened(url@, content@),
            ),
            final(self).wf(),
    {
        match last_index(&self.sessions, id) {
            Some(i) => {
                let ghost before = self.sessions@;
                proof {
                    lemma_assoc_last(keyed_view(before), id@, i as int);
                }
                let mut e = self.sessions.remove(i);
                e.1.record_open(url, content);
                let ghost after = e;
                self.sessions.insert(i, e);
                proof {
                    assert(self.sessions@ =~= before.update(i as int, after));
                    assert(keyed_view(self.sessions@) =~= keyed_view(before).update(
                        i as int,
                        (id@, after.1@),
                    ));
                    lemma_assoc_update(keyed_view(before), id@, i as int, after.1@);
                }
            },
            None => {
                proof {
                    crate::keyed::lemma_assoc_absent(keyed_view(self.sessions@), id@);
                }
                let ghost before = self.sessions@;
                let mut s = BrowserSession::new();
                s.record_open(url, content);
                self.sessions.push((id.to_owned(), s));
                proof {
                    let kv = keyed_view(self.sessions@);
                    assert(kv.drop_last() =~= keyed_view(before));
                }
            },
        }
    }

    /// Removes the session `id`; nothing happens if there is none.
    pub fn remove(&mut self, id: &str)
        requires
            old(self).wf(),
        ensures
            final(self)@ == old(self)@.remove(id@),
            final(self).wf(),
    {
        remove_key(&mut self.sessions, id);
        assert forall|k: Seq<char>| #[trigger] self@.contains_key(k) implies self@[k].wf() by {
            assert(old(self)@.contains_key(k));
        }
    }
}

} // verus!
