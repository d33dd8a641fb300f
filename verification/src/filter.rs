//! The stage that keeps only the quads that match an expression.
//!
//! The expression is in the query language of the engine that evaluates it;
//! the stage hands the engine one query, built from the expression, and one
//! quad at a time.

use vstd::prelude::*;
use crate::cli::{
    ArgError, ArgFailure, OptSpec, arity_failure, check_arity, parsed_view, piped, pipeline_of,
    positional, scan_strings, scan_tokens,
};
use crate::pipe::{PipeSubcommand, pipeline_view};
use crate::quad_handler::{End, Handled, handled, just};
use crate::quad_iter::{ItemView, QuadIter, QuadIterItem, items_view};
use crate::stage::{SinkSubcommand, StageView};
use crate::text::texts;

verus! {

/// The arguments of the stage.
#[derive(Debug, PartialEq, Eq)]
pub struct Args {
    /// The expression; in it `?s`, `?p`, `?o` and `?g` stand for the subject,
    /// predicate, object and graph name of the quad.
    pub expression: String,
    /// The next stage, unparsed.
    pub pipeline: Option<PipeSubcommand>,
}

/// The mathematical model of [`Args`].
pub struct ArgsView {
    pub expression: Seq<char>,
    pub pipeline: Option<Seq<Seq<char>>>,
}

impl View for Args {
    type V = ArgsView;

    open spec fn view(&self) -> ArgsView {
        ArgsView { expression: self.expression@, pipeline: pipeline_view(self.pipeline) }
    }
}

/// The arguments that the tokens from `start` on stand for: one positional
/// argument, the expression.
pub open spec fn args_of(tokens: Seq<Seq<char>>, start: int) -> Result<ArgsView, ArgFailure> {
    match scan_tokens(Seq::<OptSpec>::empty(), tokens, start) {
        Err(e) => Err(e),
        Ok(m) => match arity_failure(m, 1, 1, tokens.len() as int) {
            Some(e) => Err(e),
            None => Ok(
                ArgsView { expression: tokens[m.positionals[0]], pipeline: pipeline_of(tokens, m) },
            ),
        },
    }
}

/// The query that asks whether a quad matches `expression`.
pub open spec fn filter_query(expression: Seq<char>) -> Seq<char> {
    "ASK { { ?s ?p ?o } UNION { GRAPH ?g { ?s ?p ?o } } FILTER ("@ + expression + ") }"@
}

impl Args {
    /// Parses the arguments of the stage from the tokens from `start` on.
    pub fn from_tokens(tokens: &Vec<String>, start: usize) -> (r: Result<Args, ArgError>)
        requires
            start <= tokens@.len(),
        ensures
            parsed_view(r) == args_of(texts(tokens@), start as int),
    {
        let opts: Vec<OptSpec> = Vec::new();
        assert(opts@ =~= Seq::<OptSpec>::empty());
        let scan = match scan_strings(&opts, tokens, start) {
            Ok(scan) => scan,
            Err(e) => {
                return Err(e);
            },
        };
        match check_arity(&scan, 1, 1, tokens.len()) {
            Ok(_) => {},
            Err(e) => {
                return Err(e);
            },
        }
        Ok(Args { expression: positional(tokens, &scan, 0), pipeline: piped(tokens, &scan) })
    }
}

/// The text of the query that asks whether a quad matches `expression`.
pub fn make_query(expression: &str) -> (r: String)
    ensures
        r@ == filter_query(expression@),
{
    let mut q = String::from_str("ASK { { ?s ?p ?o } UNION { GRAPH ?g { ?s ?p ?o } } FILTER (");
    q.append(expression);
    q.append(") }");
    q
}

/// Runs the stage: the engine that evaluates the expression is outside the
/// library, so the stage is handed back with the stream that reached it.
pub fn run(quads: QuadIter, args: Args) -> (r: Handled)
    ensures
        r@ == handled(StageView::Filter(args@), quads@),
{
    just(End::Delegated { stage: SinkSubcommand::Filter(args), stream: quads })
}

/// Whether an item stays in the stream, given what the engine answered for
/// it: an error always stays; a quad stays where the answer is `true`, and
/// goes where it is `false` or where the engine gave no answer.
pub open spec fn stays(item: ItemView, verdict: Option<bool>) -> bool {
    item is Err || verdict == Some(true)
}

/// The items among the first `upto` that stay, in order.
pub open spec fn filtered_upto(items: Seq<ItemView>, verdicts: Seq<Option<bool>>, upto: int) -> Seq<
    ItemView,
>
    decreases upto,
{
    if upto <= 0 {
        Seq::empty()
    } else {
        let before = filtered_upto(items, verdicts, upto - 1);
        if stays(items[upto - 1], verdicts[upto - 1]) {
            before.push(items[upto - 1])
        } else {
            before
        }
    }
}

/// Keeps the items that match. `verdicts` holds, for each item of the stream
/// in order, what the engine answered for it; an item without a verdict
/// counts as one for which the engine gave no answer.
pub fn retain(quads: QuadIter, verdicts: &Vec<Option<bool>>) -> (r: QuadIter)
    ensures
        r@ == filtered_upto(
            quads@,
            Seq::new(
                quads@.len(),
                |i: int|
                    if i < verdicts@.len() {
                        verdicts@[i]
                    } else {
                        None
                    },
            ),
            quads@.len() as int,
        ),
{
    let ghost all = Seq::new(
        quads@.len(),
        |i: int|
            if i < verdicts@.len() {
                verdicts@[i]
            } else {
                None
            },
    );
    let mut rest = quads;
    let total = rest.count();
    let mut out: Vec<QuadIterItem> = Vec::new();
    let mut i: usize = 0;
    assert(items_view(out@) =~= filtered_upto(quads@, all, 0));
    while rest.count() > 0
        invariant
            quads@.len() == total,
            i + rest@.len() == quads@.len(),
            rest@ == quads@.skip(i as int),
            all.len() == quads@.len(),
            forall|k: int|
                0 <= k < all.len() ==> #[trigger] all[k] == (if k < verdicts@.len() {
                    verdicts@[k]
                } else {
                    None
                }),
            items_view(out@) == filtered_upto(quads@, all, i as int),
        decreases rest@.len(),
    {
        let ghost before = items_view(out@);
        let item = rest.next().unwrap();
        assert(crate::quad_iter::item_view(item) == quads@[i as int]);
        let verdict = if i < verdicts.len() {
            verdicts[i]
        } else {
            None
        };
        assert(verdict == all[i as int]);
        let keep = match &item {
            Err(_) => true,
            Ok(_) => match verdict {
                Some(true) => true,
                _ => false,
            },
        };
        if keep {
            out.push(item);
            assert(items_view(out@) =~= before.push(quads@[i as int]));
        }
        assert(rest@ =~= quads@.skip(i + 1));
        i += 1;
    }
    QuadIter::new(out)
}

} // verus!
