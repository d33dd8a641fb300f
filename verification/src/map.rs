//! The stage that makes a new quad of each quad, term by term, with
//! expressions in the query language of the engine that evaluates them.

use vstd::prelude::*;
use crate::pipe::{PipeSubcommand, pipeline_view};
use crate::query::row_view;
use crate::term::{Quad, QuadView, Term, TermView, option_quad_view};

verus! {

/// The arguments of the stage.
#[derive(Debug, PartialEq, Eq)]
pub struct Args {
    /// The expression for the subject.
    pub subject: String,
    /// The expression for the predicate.
    pub predicate: String,
    /// The expression for the object.
    pub object: String,
    /// The expression for the graph name.
    pub graph: String,
    /// The next stage, unparsed.
    pub pipeline: Option<PipeSubcommand>,
}

/// The mathematical model of [`Args`].
pub struct ArgsView {
    pub subject: Seq<char>,
    pub predicate: Seq<char>,
    pub object: Seq<char>,
    pub graph: Seq<char>,
    pub pipeline: Option<Seq<Seq<char>>>,
}

impl View for Args {
    type V = ArgsView;

    open spec fn view(&self) -> ArgsView {
        ArgsView {
            subject: self.subject@,
            predicate: self.predicate@,
            object: self.object@,
            graph: self.graph@,
            pipeline: pipeline_view(self.pipeline),
        }
    }
}

/// The query that computes the terms of the new quad.
pub open spec fn map_query(a: ArgsView) -> Seq<char> {
    "SELECT (("@ + a.subject + ") as ?s_new) (("@ + a.predicate + ") as ?p_new) (("@ + a.object
        + ") as ?o_new) (("@ + a.graph
        + ") as ?g_new) WHERE { { ?s ?p ?o } UNION { GRAPH ?g { ?s ?p ?o } } }"@
}

impl Args {
    /// The arguments that leave every term as it is: each expression is the
    /// variable of its term.
    pub fn new(pipeline: Option<PipeSubcommand>) -> (r: Args)
        ensures
            r@ == (ArgsView {
                subject: "?s"@,
                predicate: "?p"@,
                object: "?o"@,
                graph: "?g"@,
                pipeline: pipeline_view(pipeline),
            }),
    {
        Args {
            subject: String::from_str("?s"),
            predicate: String::from_str("?p"),
            object: String::from_str("?o"),
            graph: String::from_str("?g"),
            pipeline,
        }
    }
}

/// The text of the query that computes the terms of the new quad.
pub fn make_query(args: &Args) -> (r: String)
    ensures
        r@ == map_query(args@),
{
    let mut q = String::from_str("SELECT ((");
    q.append(args.subject.as_str());
    q.append(") as ?s_new) ((");
    q.append(args.predicate.as_str());
    q.append(") as ?p_new) ((");
    q.append(args.object.as_str());
    q.append(") as ?o_new) ((");
    q.append(args.graph.as_str());
    q.append(") as ?g_new) WHERE { { ?s ?p ?o } UNION { GRAPH ?g { ?s ?p ?o } } }");
    q
}

/// The quad that a row of the engine's answer stands for: the row holds the
/// new subject, predicate, object and graph name, in that order, and nothing
/// else counts; there is no quad where the row is too short or one of the
/// first three is not bound; without a graph name the quad belongs to the
/// default graph.
pub open spec fn quad_of(row: Seq<Option<TermView>>) -> Option<QuadView> {
    if row.len() < 4 {
        None
    } else {
        let n = row.len() as int;
        match (row[n - 4], row[n - 3], row[n - 2]) {
            (Some(s), Some(p), Some(o)) => Some(QuadView { s, p, o, g: row[n - 1] }),
            _ => None,
        }
    }
}

/// The quad that a row of the engine's answer stands for. The last four
/// values of the row count.
pub fn quad_of_row(row: Vec<Option<Term>>) -> (r: Option<Quad>)
    ensures
        option_quad_view(r) == quad_of(row_view(row@)),
{
    let mut row = row;
    if row.len() < 4 {
        return None;
    }
    let g = row.pop().unwrap();
    let o = row.pop().unwrap();
    let p = row.pop().unwrap();
    let s = row.pop().unwrap();
    match (s, p, o) {
        (Some(s), Some(p), Some(o)) => Some(Quad { s, p, o, g }),
        _ => None,
    }
}

} // verus!
