//! Prefix maps written as `PREFIX:IRI,PREFIX:IRI,...`.

use vstd::prelude::*;
use crate::iri::{absolute_iri_ref, valid_prefix};
use crate::text::{chars_of, find_char, find_from, lemma_find_from_bounds, part_of};

verus! {

/// A prefix and the IRI that it stands for.
pub type PrefixMapPair = (String, String);

/// Why a text is no prefix map.
#[derive(Clone, Copy, Debug, PartialEq, Eq, Structural)]
pub enum PrefixMapErrorKind {
    /// An entry has no colon.
    MissingColon,
    /// What stands before the colon is no prefix.
    InvalidPrefix,
    /// What stands behind the colon is no IRI.
    InvalidIri,
}

/// A text that is no prefix map: why, and at which character the entry at
/// fault begins.
#[derive(Clone, Copy, Debug, PartialEq, Eq, Structural)]
pub struct PrefixMapError {
    pub kind: PrefixMapErrorKind,
    pub at: usize,
}

/// The mathematical model of a [`PrefixMapError`].
pub struct PrefixMapFailure {
    pub kind: PrefixMapErrorKind,
    pub at: int,
}

impl View for PrefixMapError {
    type V = PrefixMapFailure;

    open spec fn view(&self) -> PrefixMapFailure {
        PrefixMapFailure { kind: self.kind, at: self.at as int }
    }
}

/// The views of the pairs of a prefix map.
pub open spec fn pairs_view(pairs: Seq<PrefixMapPair>) -> Seq<(Seq<char>, Seq<char>)> {
    Seq::new(pairs.len(), |i: int| (pairs[i].0@, pairs[i].1@))
}

/// The view of an optional prefix map.
pub open spec fn prefixes_view(p: Option<Vec<PrefixMapPair>>) -> Option<
    Seq<(Seq<char>, Seq<char>)>,
> {
    match p {
        Some(v) => Some(pairs_view(v@)),
        None => None,
    }
}

/// What is wrong with the entry of `txt` that begins at `from` and ends
/// before `end`, if anything.
pub open spec fn entry_failure(txt: Seq<char>, from: int, end: int) -> Option<
    PrefixMapErrorKind,
> {
    let colon = find_from(txt.subrange(from, end), ':', 0);
    if colon >= end - from {
        Some(PrefixMapErrorKind::MissingColon)
    } else if !valid_prefix(txt.subrange(from, from + colon)) {
        Some(PrefixMapErrorKind::InvalidPrefix)
    } else if !absolute_iri_ref(txt.subrange(from + colon + 1, end)) {
        Some(PrefixMapErrorKind::InvalidIri)
    } else {
        None
    }
}

/// The pair that the entry of `txt` between `from` and `end` stands for.
pub open spec fn entry_pair(txt: Seq<char>, from: int, end: int) -> (Seq<char>, Seq<char>) {
    let colon = find_from(txt.subrange(from, end), ':', 0);
    (txt.subrange(from, from + colon), txt.subrange(from + colon + 1, end))
}

/// The prefix map that `txt` stands for from the character `from` on, behind
/// the pairs `acc`. The entries are separated by commas; each is a prefix, a
/// colon and an IRI, which may itself hold colons.
pub open spec fn prefix_map_from(
    txt: Seq<char>,
    from: int,
    acc: Seq<(Seq<char>, Seq<char>)>,
) -> Result<Seq<(Seq<char>, Seq<char>)>, PrefixMapFailure>
    decreases txt.len() - from,
    when 0 <= from <= txt.len()
{
    let end = find_from(txt, ',', from);
    match entry_failure(txt, from, end) {
        Some(kind) => Err(PrefixMapFailure { kind, at: from }),
        None => {
            let acc2 = acc.push(entry_pair(txt, from, end));
            if end >= txt.len() {
                Ok(acc2)
            } else {
                proof {
                    lemma_find_from_bounds(txt, ',', from);
                }
                prefix_map_from(txt, end + 1, acc2)
            }
        },
    }
}

/// The prefix map that `txt` stands for.
pub open spec fn prefix_map_of(txt: Seq<char>) -> Result<
    Seq<(Seq<char>, Seq<char>)>,
    PrefixMapFailure,
> {
    prefix_map_from(txt, 0, Seq::empty())
}

/// The view of the result of parsing a prefix map.
pub open spec fn prefix_map_result_view(r: Result<Vec<PrefixMapPair>, PrefixMapError>) -> Result<
    Seq<(Seq<char>, Seq<char>)>,
    PrefixMapFailure,
> {
    match r {
        Ok(v) => Ok(pairs_view(v@)),
        Err(e) => Err(e@),
    }
}

/// Parses a prefix map written as `PREFIX:IRI,PREFIX:IRI,...`.
pub fn parse_prefix_map(txt: &str) -> (r: Result<Vec<PrefixMapPair>, PrefixMapError>)
    ensures
        prefix_map_result_view(r) == prefix_map_of(txt@),
{
    let chars = chars_of(txt);
    let mut out: Vec<PrefixMapPair> = Vec::new();
    let mut from: usize = 0;
    assert(pairs_view(out@) =~= Seq::empty());
    loop
        invariant
            from <= chars@.len(),
            chars@ == txt@,
            prefix_map_from(txt@, from as int, pairs_view(out@)) == prefix_map_of(txt@),
        decreases chars@.len() - from,
    {
        let end = find_char(&chars, ',', from);
        let ghost entry = txt@.subrange(from as int, end as int);
        let mut colon: usize = from;
        while colon < end && chars[colon] != ':'
            invariant
                from <= colon <= end <= chars@.len(),
                chars@ == txt@,
                entry == txt@.subrange(from as int, end as int),
                find_from(entry, ':', 0) == find_from(entry, ':', colon - from),
            decreases end - colon,
        {
            assert(entry[colon - from] == chars@[colon as int]);
            colon += 1;
        }
        proof {
            lemma_find_from_bounds(entry, ':', 0);
            if colon < end {
                assert(entry[colon - from] == chars@[colon as int]);
            }
            assert(find_from(entry, ':', 0) == colon - from);
        }
        if colon >= end {
            return Err(PrefixMapError { kind: PrefixMapErrorKind::MissingColon, at: from });
        }
        let prefix = part_of(txt, from, colon);
        let iri = part_of(txt, colon + 1, end);
        if !sophia::api::prefix::is_valid_prefix(prefix.as_str()) {
            return Err(PrefixMapError { kind: PrefixMapErrorKind::InvalidPrefix, at: from });
        }
        if !sophia::iri::is_absolute_iri_ref(iri.as_str()) {
            return Err(PrefixMapError { kind: PrefixMapErrorKind::InvalidIri, at: from });
        }
        let ghost before = pairs_view(out@);
        out.push((prefix, iri));
        assert(pairs_view(out@) =~= before.push(entry_pair(txt@, from as int, end as int)));
        if end >= chars.len() {
            return Ok(out);
        }
        from = end + 1;
    }
}

} // verus!
