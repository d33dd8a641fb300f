//! Regular expressions, as the `regex` crate matches them.

use vstd::prelude::*;

verus! {

/// The indices of the patterns of a set that match somewhere in `text`, in
/// ascending order, as the `regex` crate finds them when the set is built
/// with the two flags given; `None` where it cannot build the set from
/// `patterns`.
pub uninterp spec fn regex_set_matches(
    patterns: Seq<Seq<char>>,
    ignore_whitespace: bool,
    case_insensitive: bool,
    text: Seq<char>,
) -> Option<Seq<usize>>;

/// Whether `pattern` matches somewhere in `text`, as the `regex` crate finds
/// it; `None` where it cannot compile `pattern`.
pub uninterp spec fn regex_is_match(pattern: Seq<char>, text: Seq<char>) -> Option<bool>;

/// The view of an optional list of indices.
pub open spec fn indices_view(r: Option<Vec<usize>>) -> Option<Seq<usize>> {
    match r {
        Some(v) => Some(v@),
        None => None,
    }
}

/// Builds a `regex::RegexSet` from `patterns` with `RegexSetBuilder`, setting
/// `ignore_whitespace` and `case_insensitive` as given, and asks it with
/// `RegexSet::matches` which patterns match `text`. The result is what the
/// crate computes, by the name above: nothing is claimed about which
/// patterns match.
#[verifier::external_body]
pub(crate) fn set_matches(
    patterns: &Vec<&str>,
    ignore_whitespace: bool,
    case_insensitive: bool,
    text: &str,
) -> (r: Option<Vec<usize>>)
    ensures
        indices_view(r) == regex_set_matches(
            patterns.deep_view(),
            ignore_whitespace,
            case_insensitive,
            text@,
        ),
{
    let set = regex::RegexSetBuilder::new(patterns.iter())
        .ignore_whitespace(ignore_whitespace)
        .case_insensitive(case_insensitive)
        .build();
    match set {
        Ok(set) => Some(set.matches(text).iter().collect()),
        Err(_) => None,
    }
}

/// Compiles `pattern` with `regex::Regex::new` and asks it with
/// `Regex::is_match` whether it matches `text`. The result is what the crate
/// computes, by the name above.
#[verifier::external_body]
pub(crate) fn is_match(pattern: &str, text: &str) -> (r: Option<bool>)
    ensures
        r == regex_is_match(pattern@, text@),
{
    match regex::Regex::new(pattern) {
        Ok(re) => Some(re.is_match(text)),
        Err(_) => None,
    }
}

/// The first of the indices, if there is one.
pub open spec fn first_index(matches: Option<Seq<usize>>) -> Option<usize> {
    match matches {
        Some(v) => if v.len() > 0 {
            Some(v[0])
        } else {
            None
        },
        None => None,
    }
}

/// The first pattern of the set that matches `text`, if the set can be built
/// and one matches.
pub fn first_match(
    patterns: &Vec<&str>,
    ignore_whitespace: bool,
    case_insensitive: bool,
    text: &str,
) -> (r: Option<usize>)
    ensures
        r == first_index(
            regex_set_matches(patterns.deep_view(), ignore_whitespace, case_insensitive, text@),
        ),
{
    match set_matches(patterns, ignore_whitespace, case_insensitive, text) {
        Some(v) => if v.len() > 0 {
            Some(v[0])
        } else {
            None
        },
        None => None,
    }
}

} // verus!
