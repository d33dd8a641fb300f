//! IRIs and prefixes, as the `sophia` crates judge and transform them.

use vstd::prelude::*;
use crate::cli::text_view;
use crate::text::{chars_of, find_char, find_from};

verus! {

/// Whether `text` is an absolute IRI, with or without fragment, as
/// `sophia_iri` judges it.
pub uninterp spec fn absolute_iri_ref(text: Seq<char>) -> bool;

/// Whether `text` is a prefix as Turtle and SPARQL allow it, as `sophia_api`
/// judges it.
pub uninterp spec fn valid_prefix(text: Seq<char>) -> bool;

/// The IRI that `reference` stands for against the base `base`, as
/// `sophia_iri` resolves it; `None` where it takes `base` for no IRI, or
/// cannot resolve `reference`.
pub uninterp spec fn resolved(base: Seq<char>, reference: Seq<char>) -> Option<Seq<char>>;

/// The reference that stands for `iri` against the base `base` when at most
/// `parents` steps up (`../`) are allowed, as `sophia_iri` relativizes it;
/// `None` where it takes `base` for no IRI, or where `iri` is too far from
/// the base.
pub uninterp spec fn relativized(base: Seq<char>, parents: u8, iri: Seq<char>) -> Option<
    Seq<char>,
>;

/// `sophia_iri::is_absolute_iri_ref` matches the text against the grammar of
/// an IRI. The result goes by the name above.
pub assume_specification[ sophia::iri::is_absolute_iri_ref ](txt: &str) -> (r: bool)
    ensures
        r == absolute_iri_ref(txt@),
;

/// `sophia_api::prefix::is_valid_prefix` accepts the empty text and what
/// matches the grammar of a prefix. The result goes by the name above.
pub assume_specification[ sophia::api::prefix::is_valid_prefix ](txt: &str) -> (r: bool)
    ensures
        r == valid_prefix(txt@),
        txt@.len() == 0 ==> r,
;

/// Builds a `sophia_iri::resolve::BaseIri` from `base` with `BaseIri::new`
/// and resolves `reference` against the IRI inside it, with the `resolve` of
/// the `oxiri` crate that `BaseIri` is made of. Either step may refuse its
/// text; then the result is `None`. The result goes by the name above.
#[verifier::external_body]
pub(crate) fn resolve(base: &str, reference: &str) -> (r: Option<String>)
    ensures
        text_view(r) == resolved(base@, reference@),
{
    match sophia::iri::resolve::BaseIri::new(base) {
        Ok(base) => match (*base).resolve(reference) {
            Ok(iri) => Some(iri.into_inner()),
            Err(_) => None,
        },
        Err(_) => None,
    }
}

/// The index of the first character at or after `from` that ends a part of
/// an IRI: `?` or `#`, and `/` too where `slash` holds; the length of `text`
/// where there is none.
pub open spec fn part_end(text: Seq<char>, from: int, slash: bool) -> int
    decreases text.len() - from,
{
    if from >= text.len() {
        text.len() as int
    } else if text[from] == '?' || text[from] == '#' || (slash && text[from] == '/') {
        from
    } else {
        part_end(text, from + 1, slash)
    }
}

/// Where the path of an IRI begins: behind the colon of the scheme, or,
/// where two slashes follow that colon, behind the authority that they
/// begin.
pub open spec fn path_begin(text: Seq<char>) -> int {
    let colon = find_from(text, ':', 0);
    if colon + 2 < text.len() && text[colon + 1] == '/' && text[colon + 2] == '/' {
        part_end(text, colon + 3, true)
    } else {
        colon + 1
    }
}

/// Whether the base lets `sophia_iri` cut an IRI at the beginning of the
/// path: the path of the base begins with a slash, or the one character
/// before it is an ASCII character.
pub open spec fn base_allows(base: Seq<char>) -> bool {
    let b = path_begin(base);
    1 <= b <= base.len() && ((b < base.len() && base[b] == '/') || base[b - 1] <= '\x7f')
}

/// Whether every end of the path of `iri` is a relative reference: the path
/// holds no colon and no two slashes in a row.
pub open spec fn path_is_plain(iri: Seq<char>) -> bool {
    let b = path_begin(iri);
    let e = part_end(iri, b, false);
    forall|k: int|
        b <= k < e ==> (#[trigger] iri[k]) != ':' && !(iri[k] == '/' && k + 1 < e && iri[k + 1]
            == '/')
}

/// Whether `iri` is tried against `base`: the path begins at the same place
/// in both, the base allows the cut, and the path of `iri` is plain. Every
/// other IRI stays as it is.
pub open spec fn can_relativize(base: Seq<char>, iri: Seq<char>) -> bool {
    path_begin(base) == path_begin(iri) && path_begin(iri) <= iri.len() && base_allows(base)
        && path_is_plain(iri)
}

/// Builds a `sophia_iri::relativize::Relativizer` from `base` and `parents`
/// and relativizes `iri` with `Relativizer::relativize`. That function takes
/// for granted that `iri` is an absolute IRI. It cuts `iri` by the byte
/// before the path of the base, which must be a whole character; and where
/// the crate is built with its debug assertions, it insists that what it
/// cuts off is a reference, which holds of every end of a plain path that
/// begins where the path of the base begins. The caller sees to all three.
/// The result goes by the name above.
#[verifier::external_body]
pub(crate) fn relativize(base: &str, parents: u8, iri: &str) -> (r: Option<String>)
    requires
        absolute_iri_ref(iri@),
        can_relativize(base@, iri@),
    ensures
        text_view(r) == relativized(base@, parents, iri@),
{
    match sophia::iri::resolve::BaseIri::new(base) {
        Ok(base) => sophia::iri::relativize::Relativizer::new(base, parents)
            .relativize(sophia::iri::Iri::new_unchecked(iri))
            .map(|r| r.unwrap().into_owned()),
        Err(_) => None,
    }
}

/// The index of the first character at or after `from` that ends a part of
/// an IRI.
fn find_part_end(text: &Vec<char>, from: usize, slash: bool) -> (r: usize)
    requires
        from <= text@.len(),
    ensures
        r == part_end(text@, from as int, slash),
        from <= r <= text@.len(),
{
    let mut i: usize = from;
    while i < text.len()
        invariant
            from <= i <= text@.len(),
            part_end(text@, from as int, slash) == part_end(text@, i as int, slash),
        decreases text.len() - i,
    {
        let c = text[i];
        if c == '?' || c == '#' || (slash && c == '/') {
            return i;
        }
        i += 1;
    }
    i
}

/// Where the path of an IRI begins; `None` where that would lie behind the
/// end of the text.
fn find_path_begin(text: &Vec<char>) -> (r: Option<usize>)
    ensures
        match r {
            Some(b) => b == path_begin(text@) && b <= text@.len(),
            None => path_begin(text@) > text@.len(),
        },
{
    let n = text.len();
    let colon = find_char(text, ':', 0);
    if colon >= n {
        return None;
    }
    if n - colon > 2 && text[colon + 1] == '/' && text[colon + 2] == '/' {
        Some(find_part_end(text, colon + 3, true))
    } else {
        Some(colon + 1)
    }
}

/// Whether `iri` is tried against `base`.
pub fn may_relativize(base: &str, iri: &str) -> (r: bool)
    ensures
        r == can_relativize(base@, iri@),
{
    let b = chars_of(base);
    let i = chars_of(iri);
    let begin = match find_path_begin(&b) {
        Some(begin) => begin,
        None => {
            return false;
        },
    };
    match find_path_begin(&i) {
        Some(other) => {
            if other != begin {
                return false;
            }
        },
        None => {
            return false;
        },
    }
    if begin < 1 {
        return false;
    }
    let rooted = begin < b.len() && b[begin] == '/';
    if !rooted && b[begin - 1] > '\x7f' {
        return false;
    }
    let end = find_part_end(&i, begin, false);
    let mut k: usize = begin;
    while k < end
        invariant
            begin <= k <= end <= i@.len(),
            i@ == iri@,
            begin == path_begin(iri@),
            end == part_end(iri@, begin as int, false),
            forall|j: int|
                begin <= j < k ==> (#[trigger] i@[j]) != ':' && !(i@[j] == '/' && j + 1 < end
                    && i@[j + 1] == '/'),
        decreases end - k,
    {
        if i[k] == ':' || (i[k] == '/' && k + 1 < end && i[k + 1] == '/') {
            assert(!(i@[k as int] != ':' && !(i@[k as int] == '/' && k + 1 < end && i@[k + 1]
                == '/')));
            return false;
        }
        k += 1;
    }
    true
}

} // verus!
