//! Small text helpers used when showing weather data.

use vstd::prelude::*;
use crate::text::{chars_of, collapse_ws, collapse_ws_chars, string_of, trim, trim_chars};

verus! {

/// `s` with leading and trailing white space removed and every run of
/// white space inside it replaced by one space.
pub fn clean_string(s: &str) -> (r: String)
    ensures
        r@ == collapse_ws(s@),
{
    let c = chars_of(s);
    let d = collapse_ws_chars(&c);
    string_of(&d)
}

/// The text of an optional string, empty when absent.
pub open spec fn opt_text(v: Option<String>) -> Seq<char> {
    match v {
        Some(s) => s@,
        None => Seq::empty(),
    }
}

/// The text of an optional string slice, empty when absent.
pub open spec fn opt_str_text(v: Option<&str>) -> Seq<char> {
    match v {
        Some(s) => s@,
        None => Seq::empty(),
    }
}

/// An optional string, trimmed; empty when absent.
pub fn opt_str(v: Option<String>) -> (r: String)
    ensures
        r@ == trim(opt_text(v)),
{
    let c = match &v {
        Some(s) => chars_of(s.as_str()),
        None => Vec::new(),
    };
    assert(c@ =~= opt_text(v));
    let t = trim_chars(&c);
    string_of(&t)
}

/// An optional string slice, trimmed; empty when absent.
pub fn opt_str_ref(v: Option<&str>) -> (r: String)
    ensures
        r@ == trim(opt_str_text(v)),
{
    let c = match v {
        Some(s) => chars_of(s),
        None => Vec::new(),
    };
    assert(c@ =~= opt_str_text(v));
    let t = trim_chars(&c);
    string_of(&t)
}

} // verus!
