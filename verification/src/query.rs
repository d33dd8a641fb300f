//! The stage that runs a query against the quads.
//!
//! The query is evaluated by an engine outside this library. What the
//! library decides is what becomes of the engine's answer: which answers can
//! be piped on, how a row of bindings becomes a quad, and how the process
//! ends on a boolean.

use vstd::prelude::*;
use crate::cli::{
    ArgError, ArgFailure, OptSpec, arity_failure, check_arity, flag_of, option_given, parsed_view,
    piped, pipeline_of, positional, scan_strings, scan_tokens,
};
use crate::pipe::{PipeSubcommand, pipeline_view};
use crate::quad_handler::{End, Handled, handled, just};
use crate::quad_iter::QuadIter;
use crate::stage::{SinkSubcommand, StageView};
use crate::term::{Quad, QuadView, Term, TermView, option_quad_view, option_term_view};
use crate::text::{same_text, texts};

verus! {

/// The arguments of the stage.
#[derive(Debug, PartialEq, Eq)]
pub struct Args {
    /// The query.
    pub query: String,
    /// Do not show the names of the variables above the bindings.
    pub no_headers: bool,
    /// End the process with a failure status where the answer is `false`,
    /// and do not print the answer.
    pub status: bool,
    /// The next stage, unparsed.
    pub pipeline: Option<PipeSubcommand>,
}

/// The mathematical model of [`Args`].
pub struct ArgsView {
    pub query: Seq<char>,
    pub no_headers: bool,
    pub status: bool,
    pub pipeline: Option<Seq<Seq<char>>>,
}

impl View for Args {
    type V = ArgsView;

    open spec fn view(&self) -> ArgsView {
        ArgsView {
            query: self.query@,
            no_headers: self.no_headers,
            status: self.status,
            pipeline: pipeline_view(self.pipeline),
        }
    }
}

/// The options of the stage: `-H`, `--no-headers` and `-s`, `--status`.
pub open spec fn options() -> Seq<OptSpec> {
    seq![
        OptSpec { short: 'H', long: "no-headers", takes_value: false },
        OptSpec { short: 's', long: "status", takes_value: false },
    ]
}

/// The arguments that the tokens from `start` on stand for: one positional
/// argument, the query.
pub open spec fn args_of(tokens: Seq<Seq<char>>, start: int) -> Result<ArgsView, ArgFailure> {
    match scan_tokens(options(), tokens, start) {
        Err(e) => Err(e),
        Ok(m) => match arity_failure(m, 1, 1, tokens.len() as int) {
            Some(e) => Err(e),
            None => Ok(
                ArgsView {
                    query: tokens[m.positionals[0]],
                    no_headers: flag_of(m, 0),
                    status: flag_of(m, 1),
                    pipeline: pipeline_of(tokens, m),
                },
            ),
        },
    }
}

impl Args {
    /// Parses the arguments of the stage from the tokens from `start` on.
    pub fn from_tokens(tokens: &Vec<String>, start: usize) -> (r: Result<Args, ArgError>)
        requires
            start <= tokens@.len(),
        ensures
            parsed_view(r) == args_of(texts(tokens@), start as int),
    {
        let opts = vec![
            OptSpec { short: 'H', long: "no-headers", takes_value: false },
            OptSpec { short: 's', long: "status", takes_value: false },
        ];
        assert(opts@ =~= options());
        let scan = match scan_strings(&opts, tokens, start) {
            Ok(scan) => scan,
            Err(e) => {
                return Err(e);
            },
        };
        match check_arity(&scan, 1, 1, tokens.len()) {
            Ok(_) => {},
            Err(e) => {
                return Err(e);
            },
        }
        Ok(
            Args {
                query: positional(tokens, &scan, 0),
                no_headers: option_given(&scan, 0),
                status: option_given(&scan, 1),
                pipeline: piped(tokens, &scan),
            },
        )
    }
}

/// Where the variables `s`, `p`, `o` and `g` stand in a row of bindings.
#[derive(Clone, Copy, Debug, PartialEq, Eq, Structural)]
pub struct QuadExtractor {
    pub is: usize,
    pub ip: usize,
    pub io: usize,
    pub ig: Option<usize>,
}

/// The index of the last variable among the first `upto` that is called
/// `name`.
pub open spec fn last_named(variables: Seq<Seq<char>>, name: Seq<char>, upto: int) -> Option<
    usize,
>
    decreases upto,
{
    if upto <= 0 {
        None
    } else if variables[upto - 1] == name {
        Some((upto - 1) as usize)
    } else {
        last_named(variables, name, upto - 1)
    }
}

/// Whether each of the variables is called `s`, `p`, `o` or `g`.
pub open spec fn only_quad_names(variables: Seq<Seq<char>>) -> bool {
    forall|i: int|
        0 <= i < variables.len() ==> {
            let v = #[trigger] variables[i];
            v == "s"@ || v == "p"@ || v == "o"@ || v == "g"@
        }
}

/// The extractor for rows with the given variables: there are three or four
/// of them, each is called `s`, `p`, `o` or `g`, and `s`, `p` and `o` are
/// among them. Where a name occurs twice, its last place counts.
pub open spec fn extractor_for(variables: Seq<Seq<char>>) -> Option<QuadExtractor> {
    let n = variables.len() as int;
    if n < 3 || n > 4 || !only_quad_names(variables) {
        None
    } else {
        match (
            last_named(variables, "s"@, n),
            last_named(variables, "p"@, n),
            last_named(variables, "o"@, n),
        ) {
            (Some(is), Some(ip), Some(io)) => Some(
                QuadExtractor { is, ip, io, ig: last_named(variables, "g"@, n) },
            ),
            _ => None,
        }
    }
}

/// The views of the terms of a row.
pub open spec fn row_view(row: Seq<Option<Term>>) -> Seq<Option<TermView>> {
    Seq::new(row.len(), |i: int| option_term_view(row[i]))
}

/// The quad that the extractor makes of a row: none where the row is too
/// short or binds no subject, predicate or object; the graph name is that of
/// the row, where the extractor has a place for it and the row binds it.
pub open spec fn extracted(x: QuadExtractor, row: Seq<Option<TermView>>) -> Option<QuadView> {
    if x.is >= row.len() || x.ip >= row.len() || x.io >= row.len() {
        None
    } else {
        match (row[x.is as int], row[x.ip as int], row[x.io as int]) {
            (Some(s), Some(p), Some(o)) => Some(
                QuadView {
                    s,
                    p,
                    o,
                    g: match x.ig {
                        Some(ig) => if ig < row.len() {
                            row[ig as int]
                        } else {
                            None
                        },
                        None => None,
                    },
                },
            ),
            _ => None,
        }
    }
}

impl QuadExtractor {
    /// The extractor for rows with the given variables, if such rows can be
    /// read as quads.
    pub fn try_new(variables: &Vec<&str>) -> (r: Option<Self>)
        ensures
            r == extractor_for(variables.deep_view()),
    {
        let ghost vars = variables.deep_view();
        if variables.len() < 3 || variables.len() > 4 {
            return None;
        }
        let mut is: Option<usize> = None;
        let mut ip: Option<usize> = None;
        let mut io: Option<usize> = None;
        let mut ig: Option<usize> = None;
        let mut i: usize = 0;
        while i < variables.len()
            invariant
                i <= variables@.len(),
                vars == variables.deep_view(),
                only_quad_names(vars.take(i as int)),
                is == last_named(vars, "s"@, i as int),
                ip == last_named(vars, "p"@, i as int),
                io == last_named(vars, "o"@, i as int),
                ig == last_named(vars, "g"@, i as int),
            decreases variables.len() - i,
        {
            let v = variables[i];
            assert(v@ == vars[i as int]);
            let is_s = same_text(v, "s");
            let is_p = same_text(v, "p");
            let is_o = same_text(v, "o");
            let is_g = same_text(v, "g");
            if !(is_s || is_p || is_o || is_g) {
                return None;
            }
            if is_s {
                is = Some(i);
            }
            if is_p {
                ip = Some(i);
            }
            if is_o {
                io = Some(i);
            }
            if is_g {
                ig = Some(i);
            }
            assert forall|k: int| 0 <= k < i + 1 implies {
                let v = #[trigger] vars.take(i + 1)[k];
                v == "s"@ || v == "p"@ || v == "o"@ || v == "g"@
            } by {
                if k < i {
                    assert(vars.take(i + 1)[k] == vars.take(i as int)[k]);
                }
            }
            i += 1;
        }
        assert(vars.take(vars.len() as int) =~= vars);
        match (is, ip, io) {
            (Some(is), Some(ip), Some(io)) => Some(QuadExtractor { is, ip, io, ig }),
            _ => None,
        }
    }

    /// The quad that a row of bindings stands for, if it binds subject,
    /// predicate and object.
    pub fn extract(&self, row: Vec<Option<Term>>) -> (r: Option<Quad>)
        ensures
            option_quad_view(r) == extracted(*self, row_view(row@)),
    {
        let n = row.len();
        if self.is >= n || self.ip >= n || self.io >= n {
            return None;
        }
        let s = match &row[self.is] {
            Some(t) => t.clone(),
            None => {
                return None;
            },
        };
        let p = match &row[self.ip] {
            Some(t) => t.clone(),
            None => {
                return None;
            },
        };
        let o = match &row[self.io] {
            Some(t) => t.clone(),
            None => {
                return None;
            },
        };
        let g = match self.ig {
            Some(ig) => if ig < n {
                match &row[ig] {
                    Some(t) => Some(t.clone()),
                    None => None,
                }
            } else {
                None
            },
            None => None,
        };
        Some(Quad { s, p, o, g })
    }
}

/// How the stage ends on a boolean answer.
#[derive(Clone, Copy, Debug, PartialEq, Eq, Structural)]
pub enum BooleanOutcome {
    /// A boolean cannot be piped to a next stage: the stage fails.
    CannotPipe,
    /// The process ends with this status, and prints nothing.
    Exit(u8),
    /// The answer is printed, and the stage succeeds.
    Print(bool),
}

/// The status with which the process ends on the answer `false` where a
/// status was asked for.
pub const STATUS_FALSE: u8 = 128;

/// How the stage ends on the boolean answer `response`: with a next stage it
/// fails; where a status was asked for the process ends with 0 on `true` and
/// 128 on `false`; else the answer is printed.
pub fn handle_boolean(response: bool, has_pipeline: bool, status: bool) -> (r: BooleanOutcome)
    ensures
        r == if has_pipeline {
            BooleanOutcome::CannotPipe
        } else if status {
            BooleanOutcome::Exit(
                if response {
                    0u8
                } else {
                    128u8
                },
            )
        } else {
            BooleanOutcome::Print(response)
        },
{
    if has_pipeline {
        BooleanOutcome::CannotPipe
    } else if status {
        if response {
            BooleanOutcome::Exit(0)
        } else {
            BooleanOutcome::Exit(STATUS_FALSE)
        }
    } else {
        BooleanOutcome::Print(response)
    }
}


/// How a bound value is shown in a row of bindings.
#[derive(Debug, PartialEq, Eq)]
pub enum Shown {
    /// The lexical form, as a quoted string.
    Quoted(String),
    /// The lexical form, as it is.
    Plain(String),
    /// The term in full.
    Full,
}

/// The mathematical model of [`Shown`].
pub enum ShownView {
    Quoted(Seq<char>),
    Plain(Seq<char>),
    Full,
}

impl View for Shown {
    type V = ShownView;

    open spec fn view(&self) -> ShownView {
        match self {
            Shown::Quoted(lex) => ShownView::Quoted(lex@),
            Shown::Plain(lex) => ShownView::Plain(lex@),
            Shown::Full => ShownView::Full,
        }
    }
}

/// How a term is shown: a literal that is a string, by its lexical form in
/// quotes; one that is a boolean, a decimal, a double or an integer, by its
/// lexical form; every other term in full.
pub open spec fn shown(t: TermView) -> ShownView {
    match t {
        TermView::TypedLiteral(lex, datatype) => if datatype
            == "http://www.w3.org/2001/XMLSchema#string"@ {
            ShownView::Quoted(lex)
        } else if datatype == "http://www.w3.org/2001/XMLSchema#boolean"@ || datatype
            == "http://www.w3.org/2001/XMLSchema#decimal"@ || datatype
            == "http://www.w3.org/2001/XMLSchema#double"@ || datatype
            == "http://www.w3.org/2001/XMLSchema#integer"@ {
            ShownView::Plain(lex)
        } else {
            ShownView::Full
        },
        _ => ShownView::Full,
    }
}

/// How a term is shown in a row of bindings.
pub fn pretty_print(term: &Term) -> (r: Shown)
    ensures
        r@ == shown(term@),
{
    match term {
        Term::TypedLiteral(lex, datatype) => {
            let d = datatype.as_str();
            if same_text(d, "http://www.w3.org/2001/XMLSchema#string") {
                Shown::Quoted(lex.clone())
            } else if same_text(d, "http://www.w3.org/2001/XMLSchema#boolean") || same_text(
                d,
                "http://www.w3.org/2001/XMLSchema#decimal",
            ) || same_text(d, "http://www.w3.org/2001/XMLSchema#double") || same_text(
                d,
                "http://www.w3.org/2001/XMLSchema#integer",
            ) {
                Shown::Plain(lex.clone())
            } else {
                Shown::Full
            }
        },
        _ => Shown::Full,
    }
}

/// The names of the first `upto` variables, a question mark before each and
/// a tab between them.
pub open spec fn header_upto(variables: Seq<Seq<char>>, upto: int) -> Seq<char>
    decreases upto,
{
    if upto <= 0 {
        Seq::empty()
    } else if upto == 1 {
        "?"@ + variables[0]
    } else {
        header_upto(variables, upto - 1) + "\t?"@ + variables[upto - 1]
    }
}

/// What becomes of the bindings that a query gave.
#[derive(Debug, PartialEq, Eq)]
pub enum BindingsPlan {
    /// The rows are read as quads and piped to the next stage.
    Pipe(QuadExtractor),
    /// The rows cannot be read as quads: the stage fails.
    CannotPipe,
    /// The rows are printed, below this line where there is one.
    Print(Option<String>),
}

/// The mathematical model of a [`BindingsPlan`].
pub enum BindingsPlanView {
    Pipe(QuadExtractor),
    CannotPipe,
    Print(Option<Seq<char>>),
}

impl View for BindingsPlan {
    type V = BindingsPlanView;

    open spec fn view(&self) -> BindingsPlanView {
        match self {
            BindingsPlan::Pipe(x) => BindingsPlanView::Pipe(*x),
            BindingsPlan::CannotPipe => BindingsPlanView::CannotPipe,
            BindingsPlan::Print(header) => BindingsPlanView::Print(
                match header {
                    Some(h) => Some(h@),
                    None => None,
                },
            ),
        }
    }
}

/// What becomes of bindings with the given variables: with a next stage they
/// are piped, if they can be read as quads; else they are printed, below the
/// names of the variables unless the header was turned off.
pub open spec fn bindings_plan(variables: Seq<Seq<char>>, has_pipeline: bool, no_headers: bool) ->
    BindingsPlanView {
    if has_pipeline {
        match extractor_for(variables) {
            Some(x) => BindingsPlanView::Pipe(x),
            None => BindingsPlanView::CannotPipe,
        }
    } else if no_headers {
        BindingsPlanView::Print(None)
    } else {
        BindingsPlanView::Print(Some(header_upto(variables, variables.len() as int) + "\n"@))
    }
}

/// The message of the failure for bindings that cannot be piped.
pub open spec fn cannot_pipe_bindings() -> Seq<char> {
    "Can only pipe bindings to sub-command if variables are ?s, ?p, ?o and optionally ?g."@
}

/// The message of the failure for a boolean that cannot be piped.
pub open spec fn cannot_pipe_boolean() -> Seq<char> {
    "Can not pipe boolean result to sub-command"@
}

/// Decides what becomes of bindings with the given variables.
pub fn handle_bindings(variables: &Vec<&str>, has_pipeline: bool, no_headers: bool) -> (r:
    BindingsPlan)
    ensures
        r@ == bindings_plan(variables.deep_view(), has_pipeline, no_headers),
{
    let ghost vars = variables.deep_view();
    if has_pipeline {
        match QuadExtractor::try_new(variables) {
            Some(x) => BindingsPlan::Pipe(x),
            None => BindingsPlan::CannotPipe,
        }
    } else if no_headers {
        BindingsPlan::Print(None)
    } else {
        let mut header = String::new();
        let mut i: usize = 0;
        assert(header@ =~= header_upto(vars, 0));
        while i < variables.len()
            invariant
                i <= variables@.len(),
                vars == variables.deep_view(),
                header@ == header_upto(vars, i as int),
            decreases variables.len() - i,
        {
            let ghost before = header@;
            assert(variables@[i as int]@ == vars[i as int]);
            if i == 0 {
                header.append("?");
                header.append(variables[i]);
                assert(header@ =~= "?"@ + vars[0]);
            } else {
                header.append("\t?");
                header.append(variables[i]);
                assert(header@ =~= before + "\t?"@ + vars[i as int]);
            }
            i += 1;
        }
        header.append("\n");
        BindingsPlan::Print(Some(header))
    }
}

/// What stands behind the value with index `i` in a row of `n` values: a
/// tab, or a line feed behind the last.
pub fn separator(i: usize, n: usize) -> (r: &'static str)
    ensures
        r@ == (if i + 1 == n {
            "\n"@
        } else {
            "\t"@
        }),
{
    if n > 0 && i == n - 1 {
        "\n"
    } else {
        "\t"
    }
}

/// Runs the stage: the engine that evaluates the query is outside the
/// library, so the stage is handed back with the stream that reached it.
pub fn run(quads: QuadIter, args: Args) -> (r: Handled)
    ensures
        r@ == handled(StageView::Query(args@), quads@),
{
    just(End::Delegated { stage: SinkSubcommand::Query(args), stream: quads })
}

} // verus!
