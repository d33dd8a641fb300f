//! The stage that dispatches named graphs onto files.
//!
//! Every graph whose name is an IRI that begins with the root is written to
//! a file of its own: the path of the file, below the destination directory,
//! is what follows the root in the name of the graph. All other quads are
//! passed on. The stage reads its whole input into an indexed collection
//! before it decides anything; with an error in the input it fails and
//! writes nothing.
//!
//! The library plans; writing the files is the caller's work.

use vstd::prelude::*;
use crate::cli::{
    ArgError, ArgFailure, OptSpec, arity_failure, check_arity, flag_of, format_of, format_option,
    invalid_argument, invalid_argument_error, option_given, option_value, parsed_view, piped,
    pipeline_of, positional, scan_strings, scan_tokens, text_view, value_of,
};
use crate::format::{Format, format_named};
use crate::index::{each_once, unique};
use crate::iri::absolute_iri_ref;
use crate::pipe::{PipeSubcommand, pipeline_view};
use crate::quad_handler::{
    End, Failure, Handled, Job, JobView, dispatch_jobs, handled, jobs_view, just, pass_on,
    prepend_jobs, rank,
};
use crate::quad_iter::QuadIter;
use crate::stage::StageView;
use crate::quad_iter::quads_view;
use crate::relativize::{Relativizer, relativized_quad};
use crate::sequence::reversed;
use crate::serialize::{
    SerializerOptions, SerializerOptionsView, extension, extension_of, serializer_options,
    serializer_options_of,
};
use crate::term::{Quad, QuadView, Term, TermView};
use crate::text::{chars_of, count_char, part_of, slice_is, starts_with, tail_of, texts};

verus! {

/// The arguments of the stage.
#[derive(Debug, PartialEq, Eq)]
pub struct Args {
    /// The root: an absolute IRI, which ends with a slash.
    pub root: String,
    /// The directory below which the graphs are written.
    pub destination: String,
    /// Whether a file that exists may be overwritten.
    pub overwrite: bool,
    /// The format for the files whose names tell none.
    pub format: Option<Format>,
    /// Whether the IRIs in a file are made relative to the name of its
    /// graph.
    pub relativize: bool,
    pub options: SerializerOptions,
    /// The next stage, unparsed.
    pub pipeline: Option<PipeSubcommand>,
}

/// The mathematical model of [`Args`].
pub struct ArgsView {
    pub root: Seq<char>,
    pub destination: Seq<char>,
    pub overwrite: bool,
    pub format: Option<Format>,
    pub relativize: bool,
    pub options: SerializerOptionsView,
    pub pipeline: Option<Seq<Seq<char>>>,
}

impl View for Args {
    type V = ArgsView;

    open spec fn view(&self) -> ArgsView {
        ArgsView {
            root: self.root@,
            destination: self.destination@,
            overwrite: self.overwrite,
            format: self.format,
            relativize: self.relativize,
            options: self.options@,
            pipeline: pipeline_view(self.pipeline),
        }
    }
}

/// The options of the stage: `-d`, `--destination`; `-o`, `--overwrite`;
/// `-f`, `--format`; `-r`, `--relativize`; `-p`, `--prefixes`; `-P`,
/// `--no-pretty`.
pub open spec fn options() -> Seq<OptSpec> {
    seq![
        OptSpec { short: 'd', long: "destination", takes_value: true },
        OptSpec { short: 'o', long: "overwrite", takes_value: false },
        OptSpec { short: 'f', long: "format", takes_value: true },
        OptSpec { short: 'r', long: "relativize", takes_value: false },
        OptSpec { short: 'p', long: "prefixes", takes_value: true },
        OptSpec { short: 'P', long: "no-pretty", takes_value: false },
    ]
}

/// The root with a slash at its end: the root itself where it has one.
pub open spec fn with_slash(root: Seq<char>) -> Seq<char> {
    if root.len() > 0 && root.last() == '/' {
        root
    } else {
        root + "/"@
    }
}

/// The arguments that the tokens from `start` on stand for: one positional
/// argument, the root, which is an absolute IRI and gets a slash at its end
/// where it has none; without `--destination`, the files go below `.`.
pub open spec fn args_of(tokens: Seq<Seq<char>>, start: int) -> Result<ArgsView, ArgFailure> {
    match scan_tokens(options(), tokens, start) {
        Err(e) => Err(e),
        Ok(m) => match arity_failure(m, 1, 1, tokens.len() as int) {
            Some(e) => Err(e),
            None => {
                let root = tokens[m.positionals[0]];
                if !absolute_iri_ref(root) {
                    Err(invalid_argument(m, 0))
                } else {
                    match format_of(tokens, m, 2) {
                        Err(e) => Err(e),
                        Ok(format) => match serializer_options_of(tokens, m, 4, 5) {
                            Err(e) => Err(e),
                            Ok(options) => Ok(
                                ArgsView {
                                    root: with_slash(root),
                                    destination: match value_of(tokens, m, 0) {
                                        Some(d) => d,
                                        None => "."@,
                                    },
                                    overwrite: flag_of(m, 1),
                                    format,
                                    relativize: flag_of(m, 3),
                                    options,
                                    pipeline: pipeline_of(tokens, m),
                                },
                            ),
                        },
                    }
                }
            },
        },
    }
}

/// The root with a slash at its end.
pub fn sanitize_root(root: String) -> (r: String)
    ensures
        r@ == with_slash(root@),
{
    let chars = chars_of(root.as_str());
    let n = chars.len();
    if n > 0 && chars[n - 1] == '/' {
        root
    } else {
        root.concat("/")
    }
}

impl Args {
    /// Parses the arguments of the stage from the tokens from `start` on.
    pub fn from_tokens(tokens: &Vec<String>, start: usize) -> (r: Result<Args, ArgError>)
        requires
            start <= tokens@.len(),
        ensures
            parsed_view(r) == args_of(texts(tokens@), start as int),
    {
        let opts = vec![
            OptSpec { short: 'd', long: "destination", takes_value: true },
            OptSpec { short: 'o', long: "overwrite", takes_value: false },
            OptSpec { short: 'f', long: "format", takes_value: true },
            OptSpec { short: 'r', long: "relativize", takes_value: false },
            OptSpec { short: 'p', long: "prefixes", takes_value: true },
            OptSpec { short: 'P', long: "no-pretty", takes_value: false },
        ];
        assert(opts@ =~= options());
        let scan = match scan_strings(&opts, tokens, start) {
            Ok(scan) => scan,
            Err(e) => {
                return Err(e);
            },
        };
        match check_arity(&scan, 1, 1, tokens.len()) {
            Ok(_) => {},
            Err(e) => {
                return Err(e);
            },
        }
        let root = positional(tokens, &scan, 0);
        if !sophia::iri::is_absolute_iri_ref(root.as_str()) {
            return Err(invalid_argument_error(&scan, 0));
        }
        let format = match format_option(tokens, &scan, 2) {
            Ok(f) => f,
            Err(e) => {
                return Err(e);
            },
        };
        let options = match serializer_options(tokens, &scan, 4, 5) {
            Ok(o) => o,
            Err(e) => {
                return Err(e);
            },
        };
        let destination = match option_value(tokens, &scan, 0) {
            Some(d) => d,
            None => String::from_str("."),
        };
        Ok(
            Args {
                root: sanitize_root(root),
                destination,
                overwrite: option_given(&scan, 1),
                format,
                relativize: option_given(&scan, 3),
                options,
                pipeline: piped(tokens, &scan),
            },
        )
    }
}

/// The path of the file for the graph called `g`: what follows the root in
/// the name, where the name is an IRI that begins with the root.
pub open spec fn extracted_path(g: TermView, root: Seq<char>) -> Option<Seq<char>> {
    match g {
        TermView::Iri(iri) => if starts_with(iri, root) {
            Some(iri.skip(root.len() as int))
        } else {
            None
        },
        _ => None,
    }
}

/// Whether a quad belongs to a graph that is dispatched.
pub open spec fn is_dispatched(q: QuadView, root: Seq<char>) -> bool {
    q.g matches Some(g) && extracted_path(g, root) is Some
}

/// The path of the file for the graph called `gn`, if that graph is
/// dispatched.
pub fn try_extract_path(gn: &Term, root: &str) -> (r: Option<String>)
    ensures
        text_view(r) == extracted_path(gn@, root@),
{
    match gn {
        Term::Iri(iri) => {
            let chars = chars_of(iri.as_str());
            let n = root.unicode_len();
            if n <= chars.len() && slice_is(&chars, 0, n, root) {
                Some(tail_of(iri.as_str(), n))
            } else {
                None
            }
        },
        _ => None,
    }
}

/// The names of the dispatched graphs among the first `upto` quads, each
/// once, in the order in which they first occur.
pub open spec fn names_upto(quads: Seq<QuadView>, root: Seq<char>, upto: int) -> Seq<TermView>
    decreases upto,
{
    if upto <= 0 {
        Seq::empty()
    } else {
        let before = names_upto(quads, root, upto - 1);
        let q = quads[upto - 1];
        if is_dispatched(q, root) && !before.contains(q.g->0) {
            before.push(q.g->0)
        } else {
            before
        }
    }
}

/// The statements of the graph called `gn` among the first `upto` quads, in
/// order, without the name of the graph.
pub open spec fn graph_upto(quads: Seq<QuadView>, gn: TermView, upto: int) -> Seq<QuadView>
    decreases upto,
{
    if upto <= 0 {
        Seq::empty()
    } else {
        let before = graph_upto(quads, gn, upto - 1);
        let q = quads[upto - 1];
        if q.g == Some(gn) {
            before.push(QuadView { s: q.s, p: q.p, o: q.o, g: None })
        } else {
            before
        }
    }
}

/// The quads among the first `upto` that belong to no dispatched graph, in
/// order and unchanged.
pub open spec fn forwarded_upto(quads: Seq<QuadView>, root: Seq<char>, upto: int) -> Seq<QuadView>
    decreases upto,
{
    if upto <= 0 {
        Seq::empty()
    } else {
        let before = forwarded_upto(quads, root, upto - 1);
        if is_dispatched(quads[upto - 1], root) {
            before
        } else {
            before.push(quads[upto - 1])
        }
    }
}

/// The format of the file with the given path: the one that its extension
/// names, else the one of the arguments, else N-Triples.
pub open spec fn file_format(path: Seq<char>, format: Option<Format>) -> Format {
    match format_named(extension_of(path)) {
        Some(f) => f,
        None => match format {
            Some(f) => f,
            None => Format::NTriples,
        },
    }
}

/// The number of steps up that relative IRIs may take in the file with the
/// given path: the number of slashes in the path, and 255 where there are
/// more.
pub open spec fn steps_up(path: Seq<char>) -> u8 {
    if count_char(path, '/') > 255 {
        255
    } else {
        count_char(path, '/') as u8
    }
}

/// The file that is written for one graph.
#[derive(Debug, PartialEq, Eq)]
pub struct FileJob {
    /// The name of the graph.
    pub graph: String,
    /// The path of the file, relative to the destination directory.
    pub path: String,
    /// The format of the file.
    pub format: Format,
    /// The statements of the graph, without the name of the graph.
    pub quads: Vec<Quad>,
}

/// The mathematical model of a [`FileJob`].
pub struct FileJobView {
    pub graph: Seq<char>,
    pub path: Seq<char>,
    pub format: Format,
    pub quads: Seq<QuadView>,
}

impl View for FileJob {
    type V = FileJobView;

    open spec fn view(&self) -> FileJobView {
        FileJobView {
            graph: self.graph@,
            path: self.path@,
            format: self.format,
            quads: quads_view(self.quads@),
        }
    }
}

/// The quads of `quads`, each made relative to `base`.
pub open spec fn relativized_quads(base: Seq<char>, parents: u8, quads: Seq<QuadView>) -> Seq<
    QuadView,
> {
    Seq::new(quads.len(), |i: int| relativized_quad(base, parents, quads[i]))
}

/// The file for the graph called `gn`, which is dispatched: its statements,
/// each once, made relative to the name of the graph where that was asked
/// for.
pub open spec fn job_of(
    quads: Seq<QuadView>,
    gn: TermView,
    root: Seq<char>,
    format: Option<Format>,
    relativize: bool,
) -> FileJobView {
    let graph = gn->Iri_0;
    let path = graph.skip(root.len() as int);
    let statements = graph_upto(quads, gn, quads.len() as int);
    FileJobView {
        graph,
        path,
        format: file_format(path, format),
        quads: if relativize {
            relativized_quads(graph, steps_up(path), statements)
        } else {
            statements
        },
    }
}

/// What the stage does with its input.
#[derive(Debug, PartialEq, Eq)]
pub struct DispatchPlan {
    /// The files to write, in the order in which their graphs first occur.
    pub jobs: Vec<FileJob>,
    /// The quads to pass on.
    pub forwarded: Vec<Quad>,
}

/// The mathematical model of a [`DispatchPlan`].
pub struct DispatchPlanView {
    pub jobs: Seq<FileJobView>,
    pub forwarded: Seq<QuadView>,
}

/// The views of the jobs of a sequence.
pub open spec fn files_view(jobs: Seq<FileJob>) -> Seq<FileJobView> {
    Seq::new(jobs.len(), |i: int| jobs[i]@)
}

impl View for DispatchPlan {
    type V = DispatchPlanView;

    open spec fn view(&self) -> DispatchPlanView {
        DispatchPlanView { jobs: files_view(self.jobs@), forwarded: quads_view(self.forwarded@) }
    }
}

/// The plan for the quads of the input, as the indexed collection hands
/// them out: each once. One file is planned for each dispatched graph; every
/// quad of another graph, and every quad of the default graph, is passed
/// on.
pub open spec fn planned(
    all: Seq<QuadView>,
    root: Seq<char>,
    format: Option<Format>,
    relativize: bool,
) -> DispatchPlanView {
    let names = names_upto(all, root, all.len() as int);
    DispatchPlanView {
        jobs: Seq::new(names.len(), |i: int| job_of(all, names[i], root, format, relativize)),
        forwarded: forwarded_upto(all, root, all.len() as int),
    }
}

/// The views of the terms of a sequence.
pub open spec fn terms_view(terms: Seq<Term>) -> Seq<TermView> {
    Seq::new(terms.len(), |i: int| terms[i]@)
}

/// Whether `terms` holds the term `t`.
fn holds_term(terms: &Vec<Term>, t: &Term) -> (r: bool)
    ensures
        r == terms_view(terms@).contains(t@),
{
    let mut i: usize = 0;
    while i < terms.len()
        invariant
            i <= terms@.len(),
            forall|k: int| 0 <= k < i ==> terms_view(terms@)[k] != t@,
        decreases terms.len() - i,
    {
        if terms[i].same(t) {
            assert(terms_view(terms@)[i as int] == t@);
            return true;
        }
        i += 1;
    }
    false
}

/// The file for the graph called `gn`.
fn plan_job(quads: &Vec<Quad>, gn: &Term, iri: &String, path: String, args: &Args) -> (r: FileJob)
    requires
        gn@ == TermView::Iri(iri@),
        path@ == iri@.skip(args.root@.len() as int),
    ensures
        r@ == job_of(quads_view(quads@), gn@, args.root@, args.format, args.relativize),
{
    let ghost all = quads_view(quads@);
    let ext = extension(path.as_str());
    let format = match Format::from_str(ext.as_str()) {
        Ok(f) => f,
        Err(_) => match args.format {
            Some(f) => f,
            None => Format::NTriples,
        },
    };
    let path_chars = chars_of(path.as_str());
    let mut parents: u8 = 0;
    let mut k: usize = 0;
    assert(path_chars@.take(0) =~= Seq::<char>::empty());
    while k < path_chars.len()
        invariant
            k <= path_chars@.len(),
            parents < 255 ==> parents == count_char(path_chars@.take(k as int), '/'),
            parents == 255 ==> count_char(path_chars@.take(k as int), '/') >= 255,
        decreases path_chars.len() - k,
    {
        proof {
            assert(path_chars@.take(k + 1).drop_last() =~= path_chars@.take(k as int));
            assert(path_chars@.take(k + 1).last() == path_chars@[k as int]);
        }
        if path_chars[k] == '/' {
            parents = if parents == 255 {
                255
            } else {
                parents + 1
            };
        }
        k += 1;
    }
    assert(path_chars@.take(path_chars@.len() as int) =~= path_chars@);
    let relativizer = Relativizer::new(iri.clone(), parents);
    let mut statements: Vec<Quad> = Vec::new();
    let mut i: usize = 0;
    assert(quads_view(statements@) =~= graph_upto(all, gn@, 0));
    while i < quads.len()
        invariant
            i <= quads@.len(),
            all == quads_view(quads@),
            relativizer.base@ == iri@,
            relativizer.parents == parents,
            args.relativize ==> quads_view(statements@) == relativized_quads(
                iri@,
                parents,
                graph_upto(all, gn@, i as int),
            ),
            !args.relativize ==> quads_view(statements@) == graph_upto(all, gn@, i as int),
        decreases quads.len() - i,
    {
        let ghost before = quads_view(statements@);
        let q = &quads[i];
        assert(q@ == all[i as int]);
        let in_graph = match &q.g {
            Some(g) => g.same(gn),
            None => false,
        };
        if in_graph {
            let plain = Quad { s: q.s.clone(), p: q.p.clone(), o: q.o.clone(), g: None };
            if args.relativize {
                let ghost plain_view = plain@;
                let ghost found = graph_upto(all, gn@, i as int);
                let rel = relativizer.relativize_quad(plain);
                statements.push(rel);
                assert(graph_upto(all, gn@, i + 1) == found.push(plain_view));
                assert(quads_view(statements@) =~= before.push(
                    relativized_quad(iri@, parents, plain_view),
                ));
                assert(quads_view(statements@) =~= relativized_quads(
                    iri@,
                    parents,
                    graph_upto(all, gn@, i + 1),
                ));
            } else {
                statements.push(plain);
                assert(quads_view(statements@) =~= graph_upto(all, gn@, i + 1));
            }
        }
        i += 1;
    }
    FileJob { graph: iri.clone(), path, format, quads: statements }
}

/// Plans the dispatch of `quads`, which are the quads of the input as the
/// indexed collection hands them out, for the given arguments.
pub fn plan(quads: Vec<Quad>, args: &Args) -> (r: DispatchPlan)
    ensures
        r@ == planned(quads_view(quads@), args.root@, args.format, args.relativize),
{
    let all_quads = quads;
    let ghost all = quads_view(all_quads@);
    let ghost root = args.root@;
    let mut names: Vec<Term> = Vec::new();
    let mut forwarded: Vec<Quad> = Vec::new();
    let mut i: usize = 0;
    assert(terms_view(names@) =~= names_upto(all, root, 0));
    assert(quads_view(forwarded@) =~= forwarded_upto(all, root, 0));
    while i < all_quads.len()
        invariant
            i <= all_quads@.len(),
            all == quads_view(all_quads@),
            root == args.root@,
            terms_view(names@) == names_upto(all, root, i as int),
            quads_view(forwarded@) == forwarded_upto(all, root, i as int),
            forall|k: int|
                0 <= k < names@.len() ==> extracted_path(#[trigger] (names@[k]@), root) is Some,
        decreases all_quads.len() - i,
    {
        let ghost names_before = terms_view(names@);
        let ghost forwarded_before = quads_view(forwarded@);
        let q = &all_quads[i];
        assert(q@ == all[i as int]);
        let dispatched = match &q.g {
            Some(g) => match try_extract_path(g, args.root.as_str()) {
                Some(_) => {
                    if !holds_term(&names, g) {
                        names.push(g.clone());
                        assert(terms_view(names@) =~= names_before.push(g@));
                    }
                    true
                },
                None => false,
            },
            None => false,
        };
        if !dispatched {
            forwarded.push(q.clone());
            assert(quads_view(forwarded@) =~= forwarded_before.push(q@));
        }
        i += 1;
    }
    let mut jobs: Vec<FileJob> = Vec::new();
    let mut k: usize = 0;
    while k < names.len()
        invariant
            k <= names@.len(),
            all == quads_view(all_quads@),
            root == args.root@,
            jobs@.len() == k,
            forall|j: int|
                0 <= j < names@.len() ==> extracted_path(#[trigger] (names@[j]@), root) is Some,
            forall|j: int|
                0 <= j < k ==> (#[trigger] jobs@[j])@ == job_of(
                    all,
                    names@[j]@,
                    root,
                    args.format,
                    args.relativize,
                ),
        decreases names.len() - k,
    {
        let gn = &names[k];
        assert(extracted_path(names@[k as int]@, root) is Some);
        match gn {
            Term::Iri(iri) => {
                match try_extract_path(gn, args.root.as_str()) {
                    Some(path) => {
                        let job = plan_job(&all_quads, gn, iri, path, args);
                        jobs.push(job);
                    },
                    None => {
                        assert(false);
                    },
                }
            },
            _ => {
                assert(false);
            },
        }
        k += 1;
    }
    let plan = DispatchPlan { jobs, forwarded };
    assert(plan@.jobs =~= planned(
        quads_view(quads@),
        args.root@,
        args.format,
        args.relativize,
    ).jobs) by {
        assert(terms_view(names@) == names_upto(all, root, all.len() as int));
    }
    plan
}

/// The directories above the file with the given path that stand in the
/// first `upto` characters of the path: for each slash but one at the very
/// beginning, what stands before it, the shortest first.
pub open spec fn parent_dirs_upto(path: Seq<char>, upto: int) -> Seq<Seq<char>>
    decreases upto,
{
    if upto <= 0 {
        Seq::empty()
    } else {
        let before = parent_dirs_upto(path, upto - 1);
        if upto - 1 > 0 && path[upto - 1] == '/' {
            before.push(path.take(upto - 1))
        } else {
            before
        }
    }
}

/// The directories that must exist before the file with the given path can
/// be written, each before those inside it.
pub fn ensure_dirs(path: &str) -> (r: Vec<String>)
    ensures
        texts(r@) == parent_dirs_upto(path@, path@.len() as int),
{
    let chars = chars_of(path);
    let mut out: Vec<String> = Vec::new();
    let mut i: usize = 0;
    assert(texts(out@) =~= parent_dirs_upto(path@, 0));
    while i < chars.len()
        invariant
            i <= chars@.len(),
            chars@ == path@,
            texts(out@) == parent_dirs_upto(path@, i as int),
        decreases chars.len() - i,
    {
        let ghost before = texts(out@);
        if i > 0 && chars[i] == '/' {
            let dir = part_of(path, 0, i);
            assert(path@.subrange(0, i as int) =~= path@.take(i as int));
            out.push(dir);
            assert(texts(out@) =~= before.push(path@.take(i as int)));
        }
        i += 1;
    }
    out
}

/// How the file of a job is opened.
#[derive(Clone, Copy, Debug, PartialEq, Eq, Structural)]
pub enum OpenMode {
    /// The file must not exist yet: the job fails where it does.
    CreateNew,
    /// The file is created; nothing of that name existed.
    Write,
    /// The file exists and is overwritten, with a warning.
    Overwrite,
}

/// How the file of a job is opened, given whether it may be overwritten and
/// whether a file of that name is there already.
pub fn open_mode(overwrite: bool, present: bool) -> (r: OpenMode)
    ensures
        r == (if !overwrite {
            OpenMode::CreateNew
        } else if present {
            OpenMode::Overwrite
        } else {
            OpenMode::Write
        }),
{
    if !overwrite {
        OpenMode::CreateNew
    } else if present {
        OpenMode::Overwrite
    } else {
        OpenMode::Write
    }
}


/// What is passed on belongs to no dispatched graph, and every quad that
/// belongs to none is passed on.
pub proof fn lemma_forwarded_apart(quads: Seq<QuadView>, root: Seq<char>, upto: int)
    requires
        0 <= upto <= quads.len(),
    ensures
        forall|i: int|
            0 <= i < forwarded_upto(quads, root, upto).len() ==> {
                let q = #[trigger] forwarded_upto(quads, root, upto)[i];
                !is_dispatched(q, root) && quads.take(upto).contains(q)
            },
        forall|k: int|
            0 <= k < upto && !is_dispatched(quads[k], root) ==> forwarded_upto(
                quads,
                root,
                upto,
            ).contains(#[trigger] quads[k]),
    decreases upto,
{
    if upto > 0 {
        lemma_forwarded_apart(quads, root, upto - 1);
        let before = forwarded_upto(quads, root, upto - 1);
        let now = forwarded_upto(quads, root, upto);
        let last = quads[upto - 1];
        assert(quads.take(upto)[upto - 1] == last);
        assert forall|i: int| 0 <= i < now.len() implies {
            let q = #[trigger] now[i];
            !is_dispatched(q, root) && quads.take(upto).contains(q)
        } by {
            if i < before.len() {
                assert(now[i] == before[i]);
                let k = choose|k: int|
                    0 <= k < quads.take(upto - 1).len() && #[trigger] quads.take(upto - 1)[k] == before[i];
                assert(quads.take(upto)[k] == before[i]);
            }
        }
        assert forall|k: int|
            0 <= k < upto && !is_dispatched(quads[k], root) implies now.contains(
            #[trigger] quads[k],
        ) by {
            if k < upto - 1 {
                let i = choose|i: int| 0 <= i < before.len() && #[trigger] before[i] == quads[k];
                assert(now[i] == quads[k]);
            } else {
                assert(now[before.len() as int] == last);
            }
        }
    }
}

/// Every graph that gets a file is a graph of the input whose name begins
/// with the root, and no graph gets two files.
pub proof fn lemma_names_dispatched(quads: Seq<QuadView>, root: Seq<char>, upto: int)
    requires
        0 <= upto <= quads.len(),
    ensures
        forall|i: int|
            0 <= i < names_upto(quads, root, upto).len() ==> {
                let g = #[trigger] names_upto(quads, root, upto)[i];
                &&& extracted_path(g, root) is Some
                &&& exists|k: int| 0 <= k < upto && (#[trigger] quads[k]).g == Some(g)
            },
        forall|i: int, j: int|
            0 <= i < j < names_upto(quads, root, upto).len() ==> names_upto(quads, root, upto)[i]
                != names_upto(quads, root, upto)[j],
        forall|k: int|
            0 <= k < upto && is_dispatched(quads[k], root) ==> names_upto(
                quads,
                root,
                upto,
            ).contains((#[trigger] quads[k]).g->0),
    decreases upto,
{
    if upto > 0 {
        lemma_names_dispatched(quads, root, upto - 1);
        let before = names_upto(quads, root, upto - 1);
        let now = names_upto(quads, root, upto);
        let last = quads[upto - 1];
        assert forall|i: int| 0 <= i < now.len() implies {
            let g = #[trigger] now[i];
            &&& extracted_path(g, root) is Some
            &&& exists|k: int| 0 <= k < upto && (#[trigger] quads[k]).g == Some(g)
        } by {
            if i < before.len() {
                assert(now[i] == before[i]);
                let k = choose|k: int| 0 <= k < upto - 1 && (#[trigger] quads[k]).g == Some(
                    before[i],
                );
                assert(quads[k].g == Some(now[i]));
            } else {
                assert(quads[upto - 1].g == Some(now[i]));
            }
        }
        assert forall|k: int|
            0 <= k < upto && is_dispatched(quads[k], root) implies now.contains(
            (#[trigger] quads[k]).g->0,
        ) by {
            if k < upto - 1 {
                let i = choose|i: int| 0 <= i < before.len() && #[trigger] before[i] == quads[k].g->0;
                assert(now[i] == quads[k].g->0);
            } else if before.contains(last.g->0) {
            } else {
                assert(now[before.len() as int] == last.g->0);
            }
        }
    }
}

/// The file of a graph holds the statements of that graph and nothing
/// else.
pub proof fn lemma_graph_statements(quads: Seq<QuadView>, gn: TermView, upto: int)
    requires
        0 <= upto <= quads.len(),
    ensures
        forall|i: int|
            0 <= i < graph_upto(quads, gn, upto).len() ==> exists|k: int|
                0 <= k < upto && (#[trigger] quads[k]).g == Some(gn) && #[trigger] graph_upto(
                    quads,
                    gn,
                    upto,
                )[i] == (QuadView { s: quads[k].s, p: quads[k].p, o: quads[k].o, g: None }),
        forall|k: int|
            0 <= k < upto && (#[trigger] quads[k]).g == Some(gn) ==> graph_upto(
                quads,
                gn,
                upto,
            ).contains(QuadView { s: quads[k].s, p: quads[k].p, o: quads[k].o, g: None }),
    decreases upto,
{
    if upto > 0 {
        lemma_graph_statements(quads, gn, upto - 1);
        let before = graph_upto(quads, gn, upto - 1);
        let now = graph_upto(quads, gn, upto);
        let last = quads[upto - 1];
        assert forall|i: int| 0 <= i < now.len() implies exists|k: int|
            0 <= k < upto && (#[trigger] quads[k]).g == Some(gn) && #[trigger] now[i] == (QuadView {
                s: quads[k].s,
                p: quads[k].p,
                o: quads[k].o,
                g: None,
            }) by {
            if i < before.len() {
                assert(now[i] == before[i]);
                let k = choose|k: int|
                    0 <= k < upto - 1 && (#[trigger] quads[k]).g == Some(gn) && before[i]
                        == (QuadView { s: quads[k].s, p: quads[k].p, o: quads[k].o, g: None });
                assert(quads[k].g == Some(gn) && now[i] == (QuadView {
                    s: quads[k].s,
                    p: quads[k].p,
                    o: quads[k].o,
                    g: None,
                }));
            } else {
                assert(quads[upto - 1].g == Some(gn));
            }
        }
        assert forall|k: int|
            0 <= k < upto && (#[trigger] quads[k]).g == Some(gn) implies now.contains(
            QuadView { s: quads[k].s, p: quads[k].p, o: quads[k].o, g: None },
        ) by {
            let w = QuadView { s: quads[k].s, p: quads[k].p, o: quads[k].o, g: None };
            if k < upto - 1 {
                let i = choose|i: int| 0 <= i < before.len() && #[trigger] before[i] == w;
                assert(now[i] == w);
            } else {
                assert(now[before.len() as int] == w);
            }
        }
    }
}

/// Dispatching parts the quads. `all` is what the indexed collection hands
/// out of the quads of the input: each of them once. What is passed on is
/// exactly the quads of the input that belong to no dispatched graph, the
/// default graph among them; a file is planned for exactly the graphs of the
/// input whose names begin with the root, one file for a graph, at the path
/// that follows the root in the name of the graph.
pub proof fn lemma_dispatch_parts_the_quads(
    quads: Seq<QuadView>,
    all: Seq<QuadView>,
    root: Seq<char>,
    format: Option<Format>,
    relativize: bool,
)
    requires
        each_once(all, quads),
    ensures
        ({
            let p = planned(all, root, format, relativize);
            &&& forall|i: int|
                0 <= i < p.forwarded.len() ==> !is_dispatched(#[trigger] p.forwarded[i], root)
                    && quads.contains(p.forwarded[i])
            &&& forall|k: int|
                0 <= k < quads.len() && !is_dispatched(quads[k], root) ==> p.forwarded.contains(
                    #[trigger] quads[k],
                )
            &&& forall|j: int|
                0 <= j < p.jobs.len() ==> {
                    let job = #[trigger] p.jobs[j];
                    &&& starts_with(job.graph, root)
                    &&& job.path == job.graph.skip(root.len() as int)
                    &&& exists|k: int|
                        0 <= k < quads.len() && (#[trigger] quads[k]).g == Some(
                            TermView::Iri(job.graph),
                        )
                }
            &&& forall|i: int, j: int|
                0 <= i < j < p.jobs.len() ==> p.jobs[i].graph != p.jobs[j].graph
            &&& forall|k: int|
                0 <= k < quads.len() && is_dispatched(quads[k], root) ==> exists|j: int|
                    0 <= j < p.jobs.len() && TermView::Iri((#[trigger] p.jobs[j]).graph)
                        == (#[trigger] quads[k]).g->0
        }),
{
    let n = all.len() as int;
    let p = planned(all, root, format, relativize);
    let names = names_upto(all, root, n);
    lemma_forwarded_apart(all, root, n);
    lemma_names_dispatched(all, root, n);
    assert(quads.take(quads.len() as int) =~= quads);
    assert(all.take(n) =~= all);
    assert forall|i: int| 0 <= i < p.forwarded.len() implies !is_dispatched(
        #[trigger] p.forwarded[i],
        root,
    ) && quads.contains(p.forwarded[i]) by {
        let q = p.forwarded[i];
        assert(all.contains(q));
        let a = choose|a: int| 0 <= a < all.len() && #[trigger] all[a] == q;
        assert(quads.contains(all[a]));
    }
    assert forall|k: int|
        0 <= k < quads.len() && !is_dispatched(quads[k], root) implies p.forwarded.contains(
        #[trigger] quads[k],
    ) by {
        assert(all.contains(quads[k]));
        let a = choose|a: int| 0 <= a < all.len() && #[trigger] all[a] == quads[k];
        assert(p.forwarded.contains(all[a]));
    }
    assert forall|j: int| 0 <= j < p.jobs.len() implies {
        let job = #[trigger] p.jobs[j];
        &&& starts_with(job.graph, root)
        &&& job.path == job.graph.skip(root.len() as int)
        &&& exists|k: int|
            0 <= k < quads.len() && (#[trigger] quads[k]).g == Some(TermView::Iri(job.graph))
    } by {
        let g = names[j];
        assert(extracted_path(g, root) is Some);
        let a = choose|a: int| 0 <= a < n && (#[trigger] all[a]).g == Some(g);
        assert(quads.contains(all[a]));
        let k = choose|k: int| 0 <= k < quads.len() && #[trigger] quads[k] == all[a];
        assert(quads[k].g == Some(TermView::Iri(p.jobs[j].graph)));
    }
    assert forall|i: int, j: int| 0 <= i < j < p.jobs.len() implies p.jobs[i].graph
        != p.jobs[j].graph by {
        assert(names[i] != names[j]);
        assert(extracted_path(names[i], root) is Some);
        assert(extracted_path(names[j], root) is Some);
    }
    assert forall|k: int| 0 <= k < quads.len() && is_dispatched(quads[k], root) implies exists|
        j: int,
    |
        0 <= j < p.jobs.len() && TermView::Iri((#[trigger] p.jobs[j]).graph)
            == (#[trigger] quads[k]).g->0 by {
        assert(all.contains(quads[k]));
        let a = choose|a: int| 0 <= a < all.len() && #[trigger] all[a] == quads[k];
        assert(names.contains(all[a].g->0));
        let j = choose|j: int| 0 <= j < names.len() && #[trigger] names[j] == all[a].g->0;
        assert(extracted_path(names[j], root) is Some);
        assert(TermView::Iri(p.jobs[j].graph) == quads[k].g->0);
    }
}

/// The log for a graph that could not be dispatched.
pub open spec fn dispatch_error(destination: Seq<char>, path: Seq<char>, why: Seq<char>) -> Seq<
    char,
> {
    "Can not dispatch to "@ + destination + "/"@ + path + ": "@ + why
}

/// The message for a graph that could not be written: the failure is
/// logged, and the other graphs are dispatched all the same.
pub fn dispatch_error_message(destination: &str, path: &str, why: &str) -> (r: String)
    ensures
        r@ == dispatch_error(destination@, path@, why@),
{
    let mut m = String::from_str("Can not dispatch to ");
    m.append(destination);
    m.append("/");
    m.append(path);
    m.append(": ");
    m.append(why);
    m
}

/// Runs the stage: the whole stream is read; with an error in it the stage
/// fails and plans nothing; else a file is planned for each dispatched graph,
/// and the other quads are handed to what follows the stage.
pub fn run(quads: QuadIter, args: Args) -> (r: Handled)
    ensures
        r@ == handled(StageView::Dispatch(args@), quads@),
    decreases rank(args@.pipeline), 1nat,
{
    let found = match quads.collect_quads() {
        Err(e) => {
            return just(End::Failed(Failure::Input(e)));
        },
        Ok(found) => found,
    };
    match unique(found) {
        None => just(End::Failed(Failure::Index)),
        Some(all) => {
            let p = plan(all, &args);
            let ghost files = p@.jobs;
            let DispatchPlan { jobs: files_left, forwarded } = p;
            let ghost n = files_left@.len();
            let mut reversed = reversed(files_left);
            let mut jobs: Vec<Job> = Vec::new();
            while reversed.len() > 0
                invariant
                    reversed@.len() + jobs@.len() == n,
                    n == files.len(),
                    forall|k: int|
                        0 <= k < reversed@.len() ==> (#[trigger] reversed@[k])@ == files[n - 1 - k],
                    forall|k: int|
                        0 <= k < jobs@.len() ==> (#[trigger] jobs@[k])@ == (JobView::Dispatch {
                            destination: args.destination@,
                            overwrite: args.overwrite,
                            options: args.options@,
                            file: files[k],
                        }),
                decreases reversed@.len(),
            {
                let file = reversed.pop().unwrap();
                jobs.push(
                    Job::Dispatch {
                        destination: args.destination.clone(),
                        overwrite: args.overwrite,
                        options: args.options.clone(),
                        file,
                    },
                );
            }
            assert(jobs_view(jobs@) =~= dispatch_jobs(
                files,
                args.destination@,
                args.overwrite,
                args.options@,
            ));
            let rest = pass_on(args.pipeline, QuadIter::from_quads(forwarded));
            prepend_jobs(jobs, rest)
        },
    }
}

} // verus!
