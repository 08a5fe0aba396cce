//! The user-supplied name filter: a regular expression applied to candidate
//! names, optionally inverted.
//!
//! Whether a pattern compiles, and whether a compiled pattern matches
//! somewhere in a given text, are taken on trust from the regex crate and
//! named by the two uninterpreted functions below; everything built on top
//! of them is verified.

use vstd::prelude::*;

verus! {

/// Whether `pattern` is a well-formed regular expression, as the regex
/// crate judges it.
pub uninterp spec fn regex_valid(pattern: Seq<char>) -> bool;

/// Whether the well-formed regular expression `pattern` matches anywhere in
/// `text`.
pub uninterp spec fn regex_found(pattern: Seq<char>, text: Seq<char>) -> bool;

/// Relies on regex::Regex::new: whether a pattern compiles is a function of
/// the pattern alone, and an invalid pattern is reported as an error.
#[verifier::external_body]
fn regex_compiles(pattern: &str) -> (b: bool)
    ensures
        b == regex_valid(pattern@),
{
    regex::Regex::new(pattern).is_ok()
}

/// Relies on regex::Regex::new and regex::Regex::find: for a pattern that
/// compiles, whether a match is found anywhere in the text is a function of
/// the pattern and the text alone.
#[verifier::external_body]
fn regex_finds(pattern: &str, text: &str) -> (b: bool)
    requires
        regex_valid(pattern@),
    ensures
        b == regex_found(pattern@, text@),
{
    match regex::Regex::new(pattern) {
        Ok(re) => re.find(text).is_some(),
        Err(_) => false,
    }
}

/// The view of an optional filter pattern.
pub open spec fn filter_view(f: Option<String>) -> Option<Seq<char>> {
    match f {
        Some(p) => Some(p@),
        None => None,
    }
}

/// Whether the given filter configuration is acceptable: no filter at all,
/// or a pattern that compiles.
pub open spec fn filter_valid(filter: Option<Seq<char>>) -> bool {
    filter matches Some(p) ==> regex_valid(p)
}

/// Whether the filter keeps the name `n`: without a pattern every name is
/// kept; with one, exactly the matching names are kept, or exactly the
/// non-matching ones when the filter is inverted.
pub open spec fn filter_keeps(filter: Option<Seq<char>>, inverse: bool, n: Seq<char>) -> bool {
    match filter {
        None => true,
        Some(p) => if inverse {
            !regex_found(p, n)
        } else {
            regex_found(p, n)
        },
    }
}

/// Checks the filter configuration up front, before any further work, so
/// that an invalid pattern is surfaced before anything is fetched or
/// deleted.
pub fn validate_filter(filter: &Option<String>) -> (b: bool)
    ensures
        b == filter_valid(filter_view(*filter)),
{
    match filter {
        Some(p) => regex_compiles(p.as_str()),
        None => true,
    }
}

/// Whether the filter keeps the name `name`.
///
/// The pattern, if any, must be known to compile; `validate_filter`
/// establishes that.
pub fn filter_keeps_name(filter: &Option<String>, inverse: bool, name: &String) -> (b: bool)
    requires
        filter_valid(filter_view(*filter)),
    ensures
        b == filter_keeps(filter_view(*filter), inverse, name@),
{
    match filter {
        Some(p) => {
            let found = regex_finds(p.as_str(), name.as_str());
            if inverse {
                !found
            } else {
                found
            }
        }
        None => true,
    }
}

} // verus!
