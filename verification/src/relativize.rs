//! The stage that makes IRIs relative to a base.

use vstd::prelude::*;
use crate::cli::{
    ArgError, ArgFailure, OptSpec, arity_failure, check_arity, invalid_argument,
    invalid_argument_error, invalid_value, invalid_value_error, option_value, parsed_view, piped,
    pipeline_of, positional, scan_strings, scan_tokens, value_of,
};
use crate::iri::{absolute_iri_ref, can_relativize, may_relativize, relativize, relativized};
use crate::pipe::{PipeSubcommand, pipeline_view};
use crate::quad_handler::{Handled, handled, pass_on, rank};
use crate::stage::StageView;
use crate::quad_iter::{ItemView, QuadIter, QuadIterItem, item_view, items_view};
use crate::term::{Quad, QuadView, Term, TermView};
use crate::text::{parse_small_number, small_number, texts};

verus! {

/// The arguments of the stage.
#[derive(Debug, PartialEq, Eq)]
pub struct Args {
    /// The base, an absolute IRI.
    pub base: String,
    /// How many steps up (`../`) a relative reference may begin with.
    pub parents: u8,
    /// The next stage, unparsed.
    pub pipeline: Option<PipeSubcommand>,
}

/// The mathematical model of [`Args`].
pub struct ArgsView {
    pub base: Seq<char>,
    pub parents: u8,
    pub pipeline: Option<Seq<Seq<char>>>,
}

impl View for Args {
    type V = ArgsView;

    open spec fn view(&self) -> ArgsView {
        ArgsView { base: self.base@, parents: self.parents, pipeline: pipeline_view(self.pipeline) }
    }
}

/// The options of the stage: `-p`, `--parents`, with a number below 256.
pub open spec fn options() -> Seq<OptSpec> {
    seq![OptSpec { short: 'p', long: "parents", takes_value: true }]
}

/// The arguments that the tokens from `start` on stand for: one positional
/// argument, the base, which is an absolute IRI; without `--parents`, no
/// step up is allowed.
pub open spec fn args_of(tokens: Seq<Seq<char>>, start: int) -> Result<ArgsView, ArgFailure> {
    match scan_tokens(options(), tokens, start) {
        Err(e) => Err(e),
        Ok(m) => match arity_failure(m, 1, 1, tokens.len() as int) {
            Some(e) => Err(e),
            None => {
                let base = tokens[m.positionals[0]];
                if !absolute_iri_ref(base) {
                    Err(invalid_argument(m, 0))
                } else {
                    match value_of(tokens, m, 0) {
                        None => Ok(ArgsView { base, parents: 0, pipeline: pipeline_of(tokens, m) }),
                        Some(v) => match small_number(v) {
                            Some(parents) => Ok(
                                ArgsView { base, parents, pipeline: pipeline_of(tokens, m) },
                            ),
                            None => Err(invalid_value(m, 0)),
                        },
                    }
                }
            },
        },
    }
}

impl Args {
    /// Parses the arguments of the stage from the tokens from `start` on.
    pub fn from_tokens(tokens: &Vec<String>, start: usize) -> (r: Result<Args, ArgError>)
        requires
            start <= tokens@.len(),
        ensures
            parsed_view(r) == args_of(texts(tokens@), start as int),
    {
        let opts = vec![OptSpec { short: 'p', long: "parents", takes_value: true }];
        assert(opts@ =~= options());
        let scan = match scan_strings(&opts, tokens, start) {
            Ok(scan) => scan,
            Err(e) => {
                return Err(e);
            },
        };
        match check_arity(&scan, 1, 1, tokens.len()) {
            Ok(_) => {},
            Err(e) => {
                return Err(e);
            },
        }
        let base = positional(tokens, &scan, 0);
        if !sophia::iri::is_absolute_iri_ref(base.as_str()) {
            return Err(invalid_argument_error(&scan, 0));
        }
        let parents = match option_value(tokens, &scan, 0) {
            None => 0,
            Some(v) => match parse_small_number(v.as_str()) {
                Some(n) => n,
                None => {
                    return Err(invalid_value_error(&scan, 0));
                },
            },
        };
        Ok(Args { base, parents, pipeline: piped(tokens, &scan) })
    }
}

/// Makes IRIs relative to a base, with a limit on the steps up.
#[derive(Debug, PartialEq, Eq)]
pub struct Relativizer {
    pub base: String,
    pub parents: u8,
}

/// What an IRI reference becomes: an absolute IRI that is tried against the
/// base and can be written relative to it becomes that relative reference;
/// every other reference stays as it is.
pub open spec fn relativized_iriref(base: Seq<char>, parents: u8, iri: Seq<char>) -> Seq<char> {
    if absolute_iri_ref(iri) && can_relativize(base, iri) {
        match relativized(base, parents, iri) {
            Some(r) => r,
            None => iri,
        }
    } else {
        iri
    }
}

/// What a term becomes: its IRI, or the IRIs of the terms of a quoted
/// triple, are made relative; the datatype of a literal is not.
pub open spec fn relativized_term(base: Seq<char>, parents: u8, t: TermView) -> TermView
    decreases t,
{
    match t {
        TermView::Iri(iri) => TermView::Iri(relativized_iriref(base, parents, iri)),
        TermView::Triple(s, p, o) => TermView::Triple(
            Box::new(relativized_term(base, parents, *s)),
            Box::new(relativized_term(base, parents, *p)),
            Box::new(relativized_term(base, parents, *o)),
        ),
        _ => t,
    }
}

/// What a quad becomes.
pub open spec fn relativized_quad(base: Seq<char>, parents: u8, q: QuadView) -> QuadView {
    QuadView {
        s: relativized_term(base, parents, q.s),
        p: relativized_term(base, parents, q.p),
        o: relativized_term(base, parents, q.o),
        g: match q.g {
            Some(g) => Some(relativized_term(base, parents, g)),
            None => None,
        },
    }
}

/// What an item of a stream becomes: an error stays as it is.
pub open spec fn relativized_item(base: Seq<char>, parents: u8, item: ItemView) -> ItemView {
    match item {
        Ok(q) => Ok(relativized_quad(base, parents, q)),
        Err(e) => Err(e),
    }
}

/// What a stream becomes.
pub open spec fn relativized_items(base: Seq<char>, parents: u8, items: Seq<ItemView>) -> Seq<
    ItemView,
> {
    Seq::new(items.len(), |i: int| relativized_item(base, parents, items[i]))
}

impl Relativizer {
    /// The relativizer for the given base and limit.
    pub fn new(base: String, parents: u8) -> (r: Self)
        ensures
            r.base@ == base@,
            r.parents == parents,
    {
        Relativizer { base, parents }
    }

    /// Makes an IRI reference relative, where that can be done.
    pub fn relativize_iriref(&self, iriref: String) -> (r: String)
        ensures
            r@ == relativized_iriref(self.base@, self.parents, iriref@),
    {
        if sophia::iri::is_absolute_iri_ref(iriref.as_str()) && may_relativize(
            self.base.as_str(),
            iriref.as_str(),
        ) {
            match relativize(self.base.as_str(), self.parents, iriref.as_str()) {
                Some(r) => r,
                None => iriref,
            }
        } else {
            iriref
        }
    }

    /// Makes the IRIs of a term relative.
    pub fn relativize_term(&self, term: Term) -> (r: Term)
        ensures
            r@ == relativized_term(self.base@, self.parents, term@),
        decreases term,
    {
        match term {
            Term::Iri(iri) => Term::Iri(self.relativize_iriref(iri)),
            Term::Triple(s, p, o) => {
                let s_new = self.relativize_term(*s);
                let p_new = self.relativize_term(*p);
                let o_new = self.relativize_term(*o);
                Term::Triple(Box::new(s_new), Box::new(p_new), Box::new(o_new))
            },
            other => other,
        }
    }

    /// Makes the IRIs of a quad relative.
    pub fn relativize_quad(&self, quad: Quad) -> (r: Quad)
        ensures
            r@ == relativized_quad(self.base@, self.parents, quad@),
    {
        let Quad { s, p, o, g } = quad;
        let g_new = match g {
            Some(g) => Some(self.relativize_term(g)),
            None => None,
        };
        Quad {
            s: self.relativize_term(s),
            p: self.relativize_term(p),
            o: self.relativize_term(o),
            g: g_new,
        }
    }

    /// Makes the IRIs of every quad of a stream relative. Errors pass
    /// unchanged, and nothing is added or left out.
    pub fn relativize_iter(&self, quads: QuadIter) -> (r: QuadIter)
        ensures
            r@ == relativized_items(self.base@, self.parents, quads@),
    {
        let mut rest = quads;
        let mut out: Vec<QuadIterItem> = Vec::new();
        while rest.count() > 0
            invariant
                out@.len() + rest@.len() == quads@.len(),
                rest@ == quads@.skip(out@.len() as int),
                items_view(out@) == relativized_items(self.base@, self.parents, quads@).take(
                    out@.len() as int,
                ),
            decreases rest@.len(),
        {
            let ghost n = out@.len() as int;
            let item = match rest.next().unwrap() {
                Ok(q) => Ok(self.relativize_quad(q)),
                Err(e) => Err(e),
            };
            assert(item_view(item) == relativized_item(self.base@, self.parents, quads@[n]));
            out.push(item);
            assert(rest@ =~= quads@.skip(out@.len() as int));
            assert(items_view(out@) =~= relativized_items(self.base@, self.parents, quads@).take(
                out@.len() as int,
            ));
        }
        assert(items_view(out@) =~= relativized_items(self.base@, self.parents, quads@));
        QuadIter::new(out)
    }
}

/// Runs the stage: the IRIs of the stream are made relative to the base,
/// and the stream is handed to what follows the stage.
pub fn run(quads: QuadIter, args: Args) -> (r: Handled)
    ensures
        r@ == handled(StageView::Relativize(args@), quads@),
    decreases rank(args@.pipeline), 1nat,
{
    let out = Relativizer::new(args.base, args.parents).relativize_iter(quads);
    pass_on(args.pipeline, out)
}

} // verus!
