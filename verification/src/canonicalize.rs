//! The stage that writes quads in a canonical form: its arguments.
//!
//! Canonicalization itself, and the numbers that bound its effort, are the
//! work of the caller.

use vstd::prelude::*;
use crate::canonicalize::c14n_function::{C14nFunction, c14n_function_named};
use crate::canonicalize::hash_function::{HashFunctionId, hash_function_named};
use crate::cli::{
    ArgError, ArgFailure, OptSpec, arity_failure, check_arity, invalid_value,
    invalid_value_error, option_value, parsed_view, scan_strings, scan_tokens, text_view,
    unexpected_pipe, unexpected_pipe_error, value_of,
};
use crate::quad_handler::{End, Handled, handled, just};
use crate::quad_iter::QuadIter;
use crate::stage::{SinkSubcommand, StageView};
use crate::text::texts;

pub mod c14n_function;
pub mod hash_function;

verus! {

/// The arguments of the stage.
#[derive(Debug, PartialEq, Eq)]
pub struct Args {
    /// The file to write into; without it, the default output.
    pub output: Option<String>,
    /// The canonicalization function.
    pub function: C14nFunction,
    /// The hash function.
    pub hash_function: HashFunctionId,
    /// How early canonicalization gives up on graphs made to be costly: a
    /// number that is finite and not negative, as it was written.
    pub poison_resistance: String,
}

/// The mathematical model of [`Args`].
pub struct ArgsView {
    pub output: Option<Seq<char>>,
    pub function: C14nFunction,
    pub hash_function: HashFunctionId,
    pub poison_resistance: Seq<char>,
}

impl View for Args {
    type V = ArgsView;

    open spec fn view(&self) -> ArgsView {
        ArgsView {
            output: text_view(self.output),
            function: self.function,
            hash_function: self.hash_function,
            poison_resistance: self.poison_resistance@,
        }
    }
}

/// The options of the stage: `-o`, `--output`; `-f`, `--function`; `-H`,
/// `--hash-function`; `-p`, `--poison-resistance`.
pub open spec fn options() -> Seq<OptSpec> {
    seq![
        OptSpec { short: 'o', long: "output", takes_value: true },
        OptSpec { short: 'f', long: "function", takes_value: true },
        OptSpec { short: 'H', long: "hash-function", takes_value: true },
        OptSpec { short: 'p', long: "poison-resistance", takes_value: true },
    ]
}

/// The arguments that the tokens from `start` on stand for. The stage takes
/// no positional argument and no next stage. Without `--function` it uses
/// RDFC-1.0, without `--hash-function` SHA-256, and without
/// `--poison-resistance` the resistance `1`.
pub open spec fn args_of(tokens: Seq<Seq<char>>, start: int) -> Result<ArgsView, ArgFailure> {
    match scan_tokens(options(), tokens, start) {
        Err(e) => Err(e),
        Ok(m) => match arity_failure(m, 0, 0, tokens.len() as int) {
            Some(e) => Err(e),
            None => if m.pipeline is Some {
                Err(unexpected_pipe(m))
            } else {
                let function = match value_of(tokens, m, 1) {
                    Some(v) => c14n_function_named(v),
                    None => Some(C14nFunction::RDFC10),
                };
                let hash_function = match value_of(tokens, m, 2) {
                    Some(v) => hash_function_named(v),
                    None => Some(HashFunctionId::Sha256),
                };
                match function {
                    None => Err(invalid_value(m, 1)),
                    Some(function) => match hash_function {
                        None => Err(invalid_value(m, 2)),
                        Some(hash_function) => Ok(
                            ArgsView {
                                output: value_of(tokens, m, 0),
                                function,
                                hash_function,
                                poison_resistance: match value_of(tokens, m, 3) {
                                    Some(v) => v,
                                    None => "1"@,
                                },
                            },
                        ),
                    },
                }
            },
        },
    }
}

impl Args {
    /// Parses the arguments of the stage from the tokens from `start` on.
    pub fn from_tokens(tokens: &Vec<String>, start: usize) -> (r: Result<Args, ArgError>)
        requires
            start <= tokens@.len(),
        ensures
            parsed_view(r) == args_of(texts(tokens@), start as int),
    {
        let opts = vec![
            OptSpec { short: 'o', long: "output", takes_value: true },
            OptSpec { short: 'f', long: "function", takes_value: true },
            OptSpec { short: 'H', long: "hash-function", takes_value: true },
            OptSpec { short: 'p', long: "poison-resistance", takes_value: true },
        ];
        assert(opts@ =~= options());
        let scan = match scan_strings(&opts, tokens, start) {
            Ok(scan) => scan,
            Err(e) => {
                return Err(e);
            },
        };
        match check_arity(&scan, 0, 0, tokens.len()) {
            Ok(_) => {},
            Err(e) => {
                return Err(e);
            },
        }
        if scan.pipeline.is_some() {
            return Err(unexpected_pipe_error(&scan));
        }
        let function = match option_value(tokens, &scan, 1) {
            Some(v) => match C14nFunction::from_str(v.as_str()) {
                Ok(f) => f,
                Err(_) => {
                    return Err(invalid_value_error(&scan, 1));
                },
            },
            None => C14nFunction::RDFC10,
        };
        let hash_function = match option_value(tokens, &scan, 2) {
            Some(v) => match HashFunctionId::from_str(v.as_str()) {
                Ok(f) => f,
                Err(_) => {
                    return Err(invalid_value_error(&scan, 2));
                },
            },
            None => HashFunctionId::Sha256,
        };
        let poison_resistance = match option_value(tokens, &scan, 3) {
            Some(v) => v,
            None => String::from_str("1"),
        };
        Ok(
            Args {
                output: option_value(tokens, &scan, 0),
                function,
                hash_function,
                poison_resistance,
            },
        )
    }
}

/// Runs the stage: canonicalization is done outside the library, so the
/// stage is handed back with the stream that reached it.
pub fn run(quads: QuadIter, args: Args) -> (r: Handled)
    ensures
        r@ == handled(StageView::Canonicalize(args@), quads@),
{
    just(End::Delegated { stage: SinkSubcommand::Canonicalize(args), stream: quads })
}

} // verus!
