//! Answers of single-value database lookups, as the handlers read them.
use vstd::prelude::*;

verus! {

/// The characters of an optional text.
pub open spec fn opt_view(o: Option<String>) -> Option<Seq<char>> {
    match o {
        Some(s) => Some(s@),
        None => None,
    }
}

/// The value a lookup found: the row's value when a row came back; nothing
/// when no row did or the query failed.
pub open spec fn found_text(lookup: Result<Option<String>, String>) -> Option<Seq<char>> {
    match lookup {
        Ok(Some(s)) => Some(s@),
        _ => None,
    }
}

/// The value a lookup found, with a failed query read as "no row".
pub fn found(lookup: Result<Option<String>, String>) -> (r: Option<String>)
    ensures
        opt_view(r) == found_text(lookup),
{
    match lookup {
        Ok(row) => row,
        Err(_) => None,
    }
}

/// Whether two optional texts are equal (both absent, or both present with
/// the same characters).
pub fn same_text(a: &Option<String>, b: &Option<String>) -> (r: bool)
    ensures
        r == (opt_view(*a) == opt_view(*b)),
{
    match (a, b) {
        (Some(x), Some(y)) => *x == *y,
        (None, None) => true,
        _ => false,
    }
}

} // verus!
