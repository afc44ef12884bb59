//! Named tool arguments, as the JSON object of a `tools/call` holds them.
use vstd::prelude::*;
use crate::keyed::{assoc, keyed_view, lookup};

verus! {

/// One argument value. Numbers keep the form JSON integers take: a
/// non-negative integer, or a negative one. Anything else is `Other`.
pub enum ArgValue {
    Str(String),
    PosInt(u64),
    NegInt(i64),
    Other,
}

/// An argument value seen mathematically.
pub enum ArgView {
    Str(Seq<char>),
    PosInt(u64),
    NegInt(i64),
    Other,
}

impl View for ArgValue {
    type V = ArgView;

    open spec fn view(&self) -> ArgView {
        match self {
            ArgValue::Str(s) => ArgView::Str(s@),
            ArgValue::PosInt(n) => ArgView::PosInt(*n),
            ArgValue::NegInt(n) => ArgView::NegInt(*n),
            ArgValue::Other => ArgView::Other,
        }
    }
}

/// The arguments of a tool call, by name.
pub struct Arguments {
    pub entries: Vec<(String, ArgValue)>,
}

impl View for Arguments {
    type V = Map<Seq<char>, ArgView>;

    open spec fn view(&self) -> Map<Seq<char>, ArgView> {
        assoc(keyed_view(self.entries@))
    }
}

/// The argument `key` where it is a string.
pub open spec fn arg_str(a: Map<Seq<char>, ArgView>, key: Seq<char>) -> Option<Seq<char>> {
    if a.contains_key(key) {
        match a[key] {
            ArgView::Str(s) => Some(s),
            _ => None,
        }
    } else {
        None
    }
}

/// The argument `key` where it is an integer that fits `u64`.
pub open spec fn arg_u64(a: Map<Seq<char>, ArgView>, key: Seq<char>) -> Option<u64> {
    if a.contains_key(key) {
        match a[key] {
            ArgView::PosInt(n) => Some(n),
            _ => None,
        }
    } else {
        None
    }
}

/// The argument `key` where it is an integer.
pub open spec fn arg_int(a: Map<Seq<char>, ArgView>, key: Seq<char>) -> Option<int> {
    if a.contains_key(key) {
        match a[key] {
            ArgView::PosInt(n) => Some(n as int),
            ArgView::NegInt(n) => Some(n as int),
            _ => None,
        }
    } else {
        None
    }
}

/// The argument `key` where it is an integer that fits `i64`.
pub open spec fn arg_i64(a: Map<Seq<char>, ArgView>, key: Seq<char>) -> Option<i64> {
    if a.contains_key(key) {
        match a[key] {
            ArgView::PosInt(n) => if n <= i64::MAX as u64 {
                Some(n as i64)
            } else {
                None
            },
            ArgView::NegInt(n) => Some(n),
            _ => None,
        }
    } else {
        None
    }
}

impl Arguments {
    /// No arguments.
    pub fn new() -> (r: Arguments)
        ensures
            r@ == Map::<Seq<char>, ArgView>::empty(),
    {
        let r = Arguments { entries: Vec::new() };
        assert(r@ =~= Map::empty());
        r
    }

    /// Sets the argument `key` to `value`.
    pub fn set(&mut self, key: String, value: ArgValue)
        ensures
            final(self)@ == old(self)@.insert(key@, value@),
    {
        let ghost before = self.entries@;
        self.entries.push((key, value));
        proof {
            assert(keyed_view(self.entries@).drop_last() =~= keyed_view(before));
        }
    }

    /// The argument `key` where it is a string.
    pub fn get_str(&self, key: &str) -> (r: Option<&String>)
        ensures
            match r {
                Some(s) => arg_str(self@, key@) == Some(s@),
                None => arg_str(self@, key@) is None,
            },
    {
        match lookup(&self.entries, key) {
            Some(ArgValue::Str(s)) => Some(s),
            _ => None,
        }
    }

    /// The argument `key` where it is an integer that fits `u64`.
    pub fn get_u64(&self, key: &str) -> (r: Option<u64>)
        ensures
            r == arg_u64(self@, key@),
    {
        match lookup(&self.entries, key) {
            Some(ArgValue::PosInt(n)) => Some(*n),
            _ => None,
        }
    }

    /// The argument `key` where it is an integer.
    pub fn get_int(&self, key: &str) -> (r: Option<i128>)
        ensures
            match r {
                Some(n) => arg_int(self@, key@) == Some(n as int),
                None => arg_int(self@, key@) is None,
            },
    {
        match lookup(&self.entries, key) {
            Some(ArgValue::PosInt(n)) => Some(*n as i128),
            Some(ArgValue::NegInt(n)) => Some(*n as i128),
            _ => None,
        }
    }

    /// The argument `key` where it is an integer that fits `i64`.
    pub fn get_i64(&self, key: &str) -> (r: Option<i64>)
        ensures
            r == arg_i64(self@, key@),
    {
        match lookup(&self.entries, key) {
            Some(ArgValue::PosInt(n)) => if *n <= i64::MAX as u64 {
                Some(*n as i64)
            } else {
                None
            },
            Some(ArgValue::NegInt(n)) => Some(*n),
            _ => None,
        }
    }
}

} // verus!
