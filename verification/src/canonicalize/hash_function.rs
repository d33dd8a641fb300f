//! The hash functions that canonicalization can use, and their names.

use vstd::prelude::*;
use crate::pattern::{first_index, first_match, regex_set_matches};

verus! {

/// A hash function.
#[derive(Clone, Copy, Debug, PartialEq, Eq, Structural)]
pub enum HashFunctionId {
    Sha256,
    Sha384,
}

/// A name that stands for no hash function.
#[derive(Debug, PartialEq, Eq)]
pub struct HashFunctionError {
    /// The name as it was given.
    pub name: String,
}

impl HashFunctionError {
    /// The message of this error.
    pub fn to_string(&self) -> (r: String)
        ensures
            r@ == "Unrecognized hash function "@ + self.name@,
    {
        String::from_str("Unrecognized hash function ").concat(self.name.as_str())
    }
}

/// The patterns for the names of the hash functions. They are matched
/// without regard to case, and the blanks in them stand for nothing.
pub open spec fn hash_function_patterns() -> Seq<Seq<char>> {
    seq![r"^( SHA-?256 )$"@, r"^( SHA-?384 )$"@]
}

/// The function that the pattern with the given index names.
pub open spec fn hash_function_of_index(first: Option<usize>) -> Option<HashFunctionId> {
    match first {
        Some(i) => if i == 0 {
            Some(HashFunctionId::Sha256)
        } else if i == 1 {
            Some(HashFunctionId::Sha384)
        } else {
            None
        },
        None => None,
    }
}

/// The function that `name` stands for: that of the first pattern that
/// matches it.
pub open spec fn hash_function_named(name: Seq<char>) -> Option<HashFunctionId> {
    hash_function_of_index(
        first_index(regex_set_matches(hash_function_patterns(), true, true, name)),
    )
}

impl HashFunctionId {
    /// The function that the pattern with the given index names, where
    /// `first` is the index of the first pattern that matched a name.
    pub fn from_match(first: Option<usize>) -> (r: Option<HashFunctionId>)
        ensures
            r == hash_function_of_index(first),
    {
        match first {
            Some(0) => Some(HashFunctionId::Sha256),
            Some(1) => Some(HashFunctionId::Sha384),
            _ => None,
        }
    }

    /// The function that `s` stands for.
    pub fn from_str(s: &str) -> (r: Result<HashFunctionId, HashFunctionError>)
        ensures
            match r {
                Ok(f) => hash_function_named(s@) == Some(f),
                Err(e) => hash_function_named(s@) is None && e.name@ == s@,
            },
    {
        let patterns: Vec<&str> = vec![r"^( SHA-?256 )$", r"^( SHA-?384 )$"];
        assert(patterns.deep_view() =~= hash_function_patterns());
        match HashFunctionId::from_match(first_match(&patterns, true, true, s)) {
            Some(f) => Ok(f),
            None => Err(HashFunctionError { name: s.to_owned() }),
        }
    }

    /// The name under which this function is shown.
    pub fn to_string(&self) -> (r: String)
        ensures
            r@ == match *self {
                HashFunctionId::Sha256 => "SHA-256"@,
                HashFunctionId::Sha384 => "SHA-384"@,
            },
    {
        match self {
            HashFunctionId::Sha256 => String::from_str("SHA-256"),
            HashFunctionId::Sha384 => String::from_str("SHA-384"),
        }
    }
}

} // verus!
