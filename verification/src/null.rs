//! The stage that consumes all quads in silence and reports only errors.

use vstd::prelude::*;
use crate::cli::{
    ArgError, ArgFailure, OptSpec, arity_failure, check_arity, parsed_view, scan_strings,
    scan_tokens, unexpected_pipe, unexpected_pipe_error,
};
use crate::quad_iter::{QuadIter, QuadIterError, consumed, lemma_first_error};
use crate::text::texts;

verus! {

/// The arguments of the stage: it has none.
#[derive(Debug, PartialEq, Eq)]
pub struct Args {}

impl View for Args {
    type V = ();

    open spec fn view(&self) -> () {
        ()
    }
}

/// The arguments that the tokens from `start` on stand for. The stage takes
/// no option, no positional argument and no next stage.
pub open spec fn args_of(tokens: Seq<Seq<char>>, start: int) -> Result<(), ArgFailure> {
    match scan_tokens(Seq::<OptSpec>::empty(), tokens, start) {
        Err(e) => Err(e),
        Ok(m) => match arity_failure(m, 0, 0, tokens.len() as int) {
            Some(e) => Err(e),
            None => if m.pipeline is Some {
                Err(unexpected_pipe(m))
            } else {
                Ok(())
            },
        },
    }
}

impl Args {
    /// Parses the arguments of the stage from the tokens from `start` on.
    pub fn from_tokens(tokens: &Vec<String>, start: usize) -> (r: Result<Args, ArgError>)
        requires
            start <= tokens@.len(),
        ensures
            parsed_view(r) == args_of(texts(tokens@), start as int),
    {
        let opts: Vec<OptSpec> = Vec::new();
        assert(opts@ =~= Seq::<OptSpec>::empty());
        let scan = match scan_strings(&opts, tokens, start) {
            Ok(scan) => scan,
            Err(e) => {
                return Err(e);
            },
        };
        match check_arity(&scan, 0, 0, tokens.len()) {
            Ok(_) => {},
            Err(e) => {
                return Err(e);
            },
        }
        if scan.pipeline.is_some() {
            return Err(unexpected_pipe_error(&scan));
        }
        Ok(Args {  })
    }
}

/// The view of the result of consuming a stream.
pub open spec fn unit_result_view(r: Result<(), QuadIterError>) -> Result<(), Seq<char>> {
    match r {
        Ok(_) => Ok(()),
        Err(e) => Err(e@),
    }
}

/// Pulls quads until the stream ends or yields an error, and returns that
/// error.
pub fn run(quads: QuadIter, _args: Args) -> (r: Result<(), QuadIterError>)
    ensures
        unit_result_view(r) == consumed(quads@),
{
    let mut rest = quads;
    loop
        invariant
            consumed(rest@) == consumed(quads@),
        decreases rest@.len(),
    {
        let ghost before = rest@;
        match rest.next() {
            None => {
                return Ok(());
            },
            Some(Ok(_)) => {
                assert(consumed(before) == consumed(before.drop_first())) by {
                    lemma_first_error(before.drop_first());
                }
            },
            Some(Err(e)) => {
                return Err(e);
            },
        }
    }
}

} // verus!
