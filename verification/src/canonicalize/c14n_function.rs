//! The canonicalization functions and their names.

use vstd::prelude::*;
use crate::pattern::{first_index, first_match, regex_set_matches};

verus! {

/// A canonicalization function.
#[derive(Clone, Copy, Debug, PartialEq, Eq, Structural)]
pub enum C14nFunction {
    RDFC10,
    Sophia,
}

/// A name that stands for no canonicalization function.
#[derive(Debug, PartialEq, Eq)]
pub struct C14nFunctionError {
    /// The name as it was given.
    pub name: String,
}

impl C14nFunctionError {
    /// The message of this error.
    pub fn to_string(&self) -> (r: String)
        ensures
            r@ == "Unrecognized c14n function "@ + self.name@,
    {
        String::from_str("Unrecognized c14n function ").concat(self.name.as_str())
    }
}

/// The patterns for the names of the canonicalization functions. They are
/// matched without regard to case, and the blanks in them stand for nothing.
pub open spec fn c14n_function_patterns() -> Seq<Seq<char>> {
    seq![r"^( RDFC-?(1(\.?0)?)? )$"@, r"^( Sophia(-C14N)? )$"@]
}

/// The function that the pattern with the given index names.
pub open spec fn c14n_function_of_index(first: Option<usize>) -> Option<C14nFunction> {
    match first {
        Some(i) => if i == 0 {
            Some(C14nFunction::RDFC10)
        } else if i == 1 {
            Some(C14nFunction::Sophia)
        } else {
            None
        },
        None => None,
    }
}

/// The function that `name` stands for: that of the first pattern that
/// matches it.
pub open spec fn c14n_function_named(name: Seq<char>) -> Option<C14nFunction> {
    c14n_function_of_index(
        first_index(regex_set_matches(c14n_function_patterns(), true, true, name)),
    )
}

impl C14nFunction {
    /// The function that the pattern with the given index names, where
    /// `first` is the index of the first pattern that matched a name.
    pub fn from_match(first: Option<usize>) -> (r: Option<C14nFunction>)
        ensures
            r == c14n_function_of_index(first),
    {
        match first {
            Some(0) => Some(C14nFunction::RDFC10),
            Some(1) => Some(C14nFunction::Sophia),
            _ => None,
        }
    }

    /// The function that `s` stands for.
    pub fn from_str(s: &str) -> (r: Result<C14nFunction, C14nFunctionError>)
        ensures
            match r {
                Ok(f) => c14n_function_named(s@) == Some(f),
                Err(e) => c14n_function_named(s@) is None && e.name@ == s@,
            },
    {
        let patterns: Vec<&str> = vec![r"^( RDFC-?(1(\.?0)?)? )$", r"^( Sophia(-C14N)? )$"];
        assert(patterns.deep_view() =~= c14n_function_patterns());
        match C14nFunction::from_match(first_match(&patterns, true, true, s)) {
            Some(f) => Ok(f),
            None => Err(C14nFunctionError { name: s.to_owned() }),
        }
    }

    /// The name under which this function is shown.
    pub fn to_string(&self) -> (r: String)
        ensures
            r@ == match *self {
                C14nFunction::RDFC10 => "RDFC-1.0"@,
                C14nFunction::Sophia => "Sophia-C14N"@,
            },
    {
        match self {
            C14nFunction::RDFC10 => String::from_str("RDFC-1.0"),
            C14nFunction::Sophia => String::from_str("Sophia-C14N"),
        }
    }
}

} // verus!
