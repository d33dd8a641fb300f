//! The stage that resolves IRIs against a base.

use vstd::prelude::*;
use crate::cli::{
    ArgError, ArgFailure, OptSpec, arity_failure, check_arity, invalid_argument,
    invalid_argument_error, parsed_view, piped, pipeline_of, positional, scan_strings,
    scan_tokens,
};
use crate::iri::{absolute_iri_ref, resolve, resolved};
use crate::pipe::{PipeSubcommand, pipeline_view};
use crate::quad_handler::{Handled, handled, pass_on, rank};
use crate::stage::StageView;
use crate::quad_iter::{
    ItemView, QuadIter, QuadIterError, QuadIterItem, item_view, items_view,
};
use crate::term::{Quad, QuadView, Term, TermView, option_quad_view, option_term_view};
use crate::text::texts;

verus! {

/// The arguments of the stage.
#[derive(Debug, PartialEq, Eq)]
pub struct Args {
    /// The base, an absolute IRI.
    pub base: String,
    /// The next stage, unparsed.
    pub pipeline: Option<PipeSubcommand>,
}

/// The mathematical model of [`Args`].
pub struct ArgsView {
    pub base: Seq<char>,
    pub pipeline: Option<Seq<Seq<char>>>,
}

impl View for Args {
    type V = ArgsView;

    open spec fn view(&self) -> ArgsView {
        ArgsView { base: self.base@, pipeline: pipeline_view(self.pipeline) }
    }
}

/// The arguments that the tokens from `start` on stand for: one positional
/// argument, the base, which is an absolute IRI.
pub open spec fn args_of(tokens: Seq<Seq<char>>, start: int) -> Result<ArgsView, ArgFailure> {
    match scan_tokens(Seq::<OptSpec>::empty(), tokens, start) {
        Err(e) => Err(e),
        Ok(m) => match arity_failure(m, 1, 1, tokens.len() as int) {
            Some(e) => Err(e),
            None => {
                let base = tokens[m.positionals[0]];
                if !absolute_iri_ref(base) {
                    Err(invalid_argument(m, 0))
                } else {
                    Ok(ArgsView { base, pipeline: pipeline_of(tokens, m) })
                }
            },
        },
    }
}

impl Args {
    /// Parses the arguments of the stage from the tokens from `start` on.
    pub fn from_tokens(tokens: &Vec<String>, start: usize) -> (r: Result<Args, ArgError>)
        requires
            start <= tokens@.len(),
        ensures
            parsed_view(r) == args_of(texts(tokens@), start as int),
    {
        let opts: Vec<OptSpec> = Vec::new();
        assert(opts@ =~= Seq::<OptSpec>::empty());
        let scan = match scan_strings(&opts, tokens, start) {
            Ok(scan) => scan,
            Err(e) => {
                return Err(e);
            },
        };
        match check_arity(&scan, 1, 1, tokens.len()) {
            Ok(_) => {},
            Err(e) => {
                return Err(e);
            },
        }
        let base = positional(tokens, &scan, 0);
        if !sophia::iri::is_absolute_iri_ref(base.as_str()) {
            return Err(invalid_argument_error(&scan, 0));
        }
        Ok(Args { base, pipeline: piped(tokens, &scan) })
    }
}

/// A base against which IRIs are resolved.
#[derive(Debug, PartialEq, Eq)]
pub struct BaseIri {
    pub base: String,
}

/// What a term becomes: its IRI, or the IRIs of the terms of a quoted
/// triple, are resolved against the base; the datatype of a literal is not.
/// There is no such term where one of those IRIs cannot be resolved.
pub open spec fn absolutized_term(base: Seq<char>, t: TermView) -> Option<TermView>
    decreases t,
{
    match t {
        TermView::Iri(iri) => match resolved(base, iri) {
            Some(abs) => Some(TermView::Iri(abs)),
            None => None,
        },
        TermView::Triple(s, p, o) => match (
            absolutized_term(base, *s),
            absolutized_term(base, *p),
            absolutized_term(base, *o),
        ) {
            (Some(s_new), Some(p_new), Some(o_new)) => Some(
                TermView::Triple(Box::new(s_new), Box::new(p_new), Box::new(o_new)),
            ),
            _ => None,
        },
        _ => Some(t),
    }
}

/// What a quad becomes, if all its IRIs can be resolved.
pub open spec fn absolutized_quad(base: Seq<char>, q: QuadView) -> Option<QuadView> {
    match (absolutized_term(base, q.s), absolutized_term(base, q.p), absolutized_term(base, q.o)) {
        (Some(s), Some(p), Some(o)) => match q.g {
            None => Some(QuadView { s, p, o, g: None }),
            Some(g) => match absolutized_term(base, g) {
                Some(g_new) => Some(QuadView { s, p, o, g: Some(g_new) }),
                None => None,
            },
        },
        _ => None,
    }
}

/// The message of the error that stands for a quad with an IRI that cannot
/// be resolved.
pub open spec fn unresolved_message(base: Seq<char>) -> Seq<char> {
    "Can not resolve IRI against base <"@ + base + ">"@
}

/// What an item of a stream becomes: an error stays as it is, and a quad with
/// an IRI that cannot be resolved becomes an error.
pub open spec fn absolutized_item(base: Seq<char>, item: ItemView) -> ItemView {
    match item {
        Ok(q) => match absolutized_quad(base, q) {
            Some(q2) => Ok(q2),
            None => Err(unresolved_message(base)),
        },
        Err(e) => Err(e),
    }
}

/// What a stream becomes.
pub open spec fn absolutized_items(base: Seq<char>, items: Seq<ItemView>) -> Seq<ItemView> {
    Seq::new(items.len(), |i: int| absolutized_item(base, items[i]))
}

impl BaseIri {
    /// The base with the given text.
    pub fn new(base: String) -> (r: Self)
        ensures
            r.base@ == base@,
    {
        BaseIri { base }
    }

    /// Resolves the IRIs of a term, if all of them can be resolved.
    pub fn absolutize_term(&self, term: Term) -> (r: Option<Term>)
        ensures
            option_term_view(r) == absolutized_term(self.base@, term@),
        decreases term,
    {
        match term {
            Term::Iri(iri) => match resolve(self.base.as_str(), iri.as_str()) {
                Some(abs) => Some(Term::Iri(abs)),
                None => None,
            },
            Term::Triple(s, p, o) => {
                let s_new = self.absolutize_term(*s);
                let p_new = self.absolutize_term(*p);
                let o_new = self.absolutize_term(*o);
                match (s_new, p_new, o_new) {
                    (Some(s_new), Some(p_new), Some(o_new)) => Some(
                        Term::Triple(Box::new(s_new), Box::new(p_new), Box::new(o_new)),
                    ),
                    _ => None,
                }
            },
            other => Some(other),
        }
    }

    /// Resolves the IRIs of a quad, if all of them can be resolved.
    pub fn absolutize_quad(&self, quad: Quad) -> (r: Option<Quad>)
        ensures
            option_quad_view(r) == absolutized_quad(self.base@, quad@),
    {
        let Quad { s, p, o, g } = quad;
        let s_new = self.absolutize_term(s);
        let p_new = self.absolutize_term(p);
        let o_new = self.absolutize_term(o);
        match (s_new, p_new, o_new) {
            (Some(s), Some(p), Some(o)) => match g {
                None => Some(Quad { s, p, o, g: None }),
                Some(g) => match self.absolutize_term(g) {
                    Some(g_new) => Some(Quad { s, p, o, g: Some(g_new) }),
                    None => None,
                },
            },
            _ => None,
        }
    }

    /// Resolves the IRIs of every quad of a stream. Errors pass unchanged; a
    /// quad with an IRI that cannot be resolved becomes an error; nothing is
    /// added or left out.
    pub fn absolutize_iter(&self, quads: QuadIter) -> (r: QuadIter)
        ensures
            r@ == absolutized_items(self.base@, quads@),
    {
        let mut rest = quads;
        let mut out: Vec<QuadIterItem> = Vec::new();
        while rest.count() > 0
            invariant
                out@.len() + rest@.len() == quads@.len(),
                rest@ == quads@.skip(out@.len() as int),
                items_view(out@) == absolutized_items(self.base@, quads@).take(out@.len() as int),
            decreases rest@.len(),
        {
            let ghost n = out@.len() as int;
            let item = match rest.next().unwrap() {
                Ok(q) => match self.absolutize_quad(q) {
                    Some(q2) => Ok(q2),
                    None => {
                        let mut message = String::from_str("Can not resolve IRI against base <");
                        message.append(self.base.as_str());
                        message.append(">");
                        Err(QuadIterError(message))
                    },
                },
                Err(e) => Err(e),
            };
            assert(item_view(item) == absolutized_item(self.base@, quads@[n]));
            out.push(item);
            assert(rest@ =~= quads@.skip(out@.len() as int));
            assert(items_view(out@) =~= absolutized_items(self.base@, quads@).take(
                out@.len() as int,
            ));
        }
        assert(items_view(out@) =~= absolutized_items(self.base@, quads@));
        QuadIter::new(out)
    }
}

/// Runs the stage: the IRIs of the stream are resolved against the base,
/// and the stream is handed to what follows the stage.
pub fn run(quads: QuadIter, args: Args) -> (r: Handled)
    ensures
        r@ == handled(StageView::Absolutize(args@), quads@),
    decreases rank(args@.pipeline), 1nat,
{
    let out = BaseIri::new(args.base).absolutize_iter(quads);
    pass_on(args.pipeline, out)
}

} // verus!
