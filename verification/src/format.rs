//! The concrete syntaxes that quads are read from and written to, and the
//! names by which a command line, a file extension or a content type refers
//! to them.

use vstd::prelude::*;
use crate::pattern::{first_index, first_match, regex_set_matches};

verus! {

/// A concrete syntax.
#[derive(Clone, Copy, Debug, PartialEq, Eq, Hash, Structural)]
pub enum Format {
    GeneralizedNQuads,
    GeneralizedTriG,
    JsonLd,
    Hdt,
    NQuads,
    NTriples,
    RdfXml,
    TriG,
    Turtle,
    YamlLd,
}

/// A name that stands for no format.
#[derive(Debug, PartialEq, Eq)]
pub struct FormatError {
    /// The name as it was given.
    pub name: String,
}

impl FormatError {
    /// The message of this error.
    pub fn to_string(&self) -> (r: String)
        ensures
            r@ == "Unrecognized format: "@ + self.name@,
    {
        String::from_str("Unrecognized format: ").concat(self.name.as_str())
    }
}

/// The patterns for the names of the formats. They are matched without
/// regard to case, and the blanks in them stand for nothing.
pub open spec fn format_patterns() -> Seq<Seq<char>> {
    seq![
        r"^( generalized-n-?quads | gn-?quads | gnq )$"@,
        r"^( generalized-trig | gtrig | text/rdf\+n3 )$"@,
        r"^( application/ld\+json | json-?ld | application/json | json )$"@,
        r"^( application/ld\+yaml| yaml-?ld | ymlld | application/yaml | yaml | yml )$"@,
        r"^( application/n-quads | n-?quads | nq )$"@,
        r"^( application/n-triples | n-?triples | nt | text/plain )$"@,
        r"^( application/rdf\+xml | rdf | rdf/?xml | application/xml | xml )$"@,
        r"^( application/trig | trig )$"@,
        r"^( application/vnd\.hdt | hdt )$"@,
        r"^( text/turtle | turtle | ttl | application/turtle )$"@,
    ]
}

/// The format that the pattern with the given index names.
pub open spec fn format_of_index(first: Option<usize>) -> Option<Format> {
    match first {
        Some(i) => if i == 0 {
            Some(Format::GeneralizedNQuads)
        } else if i == 1 {
            Some(Format::GeneralizedTriG)
        } else if i == 2 {
            Some(Format::JsonLd)
        } else if i == 3 {
            Some(Format::YamlLd)
        } else if i == 4 {
            Some(Format::NQuads)
        } else if i == 5 {
            Some(Format::NTriples)
        } else if i == 6 {
            Some(Format::RdfXml)
        } else if i == 7 {
            Some(Format::TriG)
        } else if i == 8 {
            Some(Format::Hdt)
        } else if i == 9 {
            Some(Format::Turtle)
        } else {
            None
        },
        None => None,
    }
}

/// The format that `name` stands for: that of the first pattern that matches
/// it.
pub open spec fn format_named(name: Seq<char>) -> Option<Format> {
    format_of_index(first_index(regex_set_matches(format_patterns(), true, true, name)))
}

impl Format {
    /// The format that the pattern with the given index names, where `first`
    /// is the index of the first pattern that matched a name.
    pub fn from_match(first: Option<usize>) -> (r: Option<Format>)
        ensures
            r == format_of_index(first),
    {
        match first {
            Some(0) => Some(Format::GeneralizedNQuads),
            Some(1) => Some(Format::GeneralizedTriG),
            Some(2) => Some(Format::JsonLd),
            Some(3) => Some(Format::YamlLd),
            Some(4) => Some(Format::NQuads),
            Some(5) => Some(Format::NTriples),
            Some(6) => Some(Format::RdfXml),
            Some(7) => Some(Format::TriG),
            Some(8) => Some(Format::Hdt),
            Some(9) => Some(Format::Turtle),
            _ => None,
        }
    }

    /// The format that `s` stands for: a name of the format, a usual file
    /// extension or a content type, in any case.
    pub fn from_str(s: &str) -> (r: Result<Format, FormatError>)
        ensures
            match r {
                Ok(f) => format_named(s@) == Some(f),
                Err(e) => format_named(s@) is None && e.name@ == s@,
            },
    {
        let patterns: Vec<&str> = vec![
            r"^( generalized-n-?quads | gn-?quads | gnq )$",
            r"^( generalized-trig | gtrig | text/rdf\+n3 )$",
            r"^( application/ld\+json | json-?ld | application/json | json )$",
            r"^( application/ld\+yaml| yaml-?ld | ymlld | application/yaml | yaml | yml )$",
            r"^( application/n-quads | n-?quads | nq )$",
            r"^( application/n-triples | n-?triples | nt | text/plain )$",
            r"^( application/rdf\+xml | rdf | rdf/?xml | application/xml | xml )$",
            r"^( application/trig | trig )$",
            r"^( application/vnd\.hdt | hdt )$",
            r"^( text/turtle | turtle | ttl | application/turtle )$",
        ];
        assert(patterns.deep_view() =~= format_patterns());
        match Format::from_match(first_match(&patterns, true, true, s)) {
            Some(f) => Ok(f),
            None => Err(FormatError { name: s.to_owned() }),
        }
    }
}

} // verus!
