//! The stage that writes quads in a concrete syntax.
//!
//! The encoding itself is the work of a serializer outside this library.
//! What the library decides is which format is meant, which serializer with
//! which settings that calls for, and which quads a serializer for triples
//! gets to see.

use vstd::prelude::*;
use crate::cli::{
    ArgError, ArgErrorKind, ArgFailure, OptSpec, ScanModel, Scan, arity_failure, check_arity,
    flag_of, format_of, format_option, in_bounds, invalid_value, invalid_value_error,
    option_given, option_value, parsed_view, piped, pipeline_of, scan_strings, scan_tokens,
    text_view, unexpected_pipe, unexpected_pipe_error, value_of,
};
use crate::format::{Format, format_named};
use crate::merge::is_labelled;
use crate::pipe::{PipeSubcommand, pipeline_view};
use crate::quad_handler::{
    End, Handled, Job, handled, jobs_view, just, mirror_of, pass_on, prepend_jobs, rank,
};
use crate::stage::{SinkSubcommand, StageView};
use crate::prefix_map::{PrefixMapPair, parse_prefix_map, prefix_map_of, prefixes_view};
use crate::quad_iter::{ItemView, QuadIter, QuadIterItem, item_view, items_view};
use crate::text::{after_last, after_last_char, chars_of, tail_of, texts};

verus! {

/// Which format to write, and where to.
#[derive(Debug, PartialEq, Eq)]
pub struct SerializerArgs {
    /// The format; needed where there is no output file, or where its name
    /// does not tell.
    pub format: Option<Format>,
    /// The file to write into; without it, the default output.
    pub output: Option<String>,
}

/// Options that several formats share.
#[derive(Debug, PartialEq, Eq)]
pub struct SerializerOptions {
    /// The prefixes to write with, beside the usual ones.
    pub prefixes: Option<Vec<PrefixMapPair>>,
    /// Write without line breaks and indentation made for readers.
    pub no_pretty: bool,
}

/// The arguments of the stage.
#[derive(Debug, PartialEq, Eq)]
pub struct Args {
    pub main: SerializerArgs,
    pub options: SerializerOptions,
    /// The next stage, unparsed; with it the stage writes into its output
    /// file and passes the quads on as well.
    pub pipeline: Option<PipeSubcommand>,
}

/// The mathematical model of [`SerializerOptions`].
pub struct SerializerOptionsView {
    pub prefixes: Option<Seq<(Seq<char>, Seq<char>)>>,
    pub no_pretty: bool,
}

impl View for SerializerOptions {
    type V = SerializerOptionsView;

    open spec fn view(&self) -> SerializerOptionsView {
        SerializerOptionsView { prefixes: prefixes_view(self.prefixes), no_pretty: self.no_pretty }
    }
}

impl Clone for SerializerOptions {
    fn clone(&self) -> (r: Self)
        ensures
            r@ == self@,
    {
        let prefixes = match &self.prefixes {
            None => None,
            Some(pairs) => {
                let mut out: Vec<PrefixMapPair> = Vec::new();
                let mut i: usize = 0;
                while i < pairs.len()
                    invariant
                        i <= pairs@.len(),
                        out@.len() == i,
                        forall|k: int|
                            0 <= k < i ==> (#[trigger] out@[k]).0@ == pairs@[k].0@ && out@[k].1@
                                == pairs@[k].1@,
                    decreases pairs.len() - i,
                {
                    out.push((pairs[i].0.clone(), pairs[i].1.clone()));
                    i += 1;
                }
                assert(crate::prefix_map::pairs_view(out@) =~= crate::prefix_map::pairs_view(
                    pairs@,
                ));
                Some(out)
            },
        };
        SerializerOptions { prefixes, no_pretty: self.no_pretty }
    }
}

/// The mathematical model of [`Args`].
pub struct ArgsView {
    pub format: Option<Format>,
    pub output: Option<Seq<char>>,
    pub options: SerializerOptionsView,
    pub pipeline: Option<Seq<Seq<char>>>,
}

impl View for Args {
    type V = ArgsView;

    open spec fn view(&self) -> ArgsView {
        ArgsView {
            format: self.main.format,
            output: text_view(self.main.output),
            options: self.options@,
            pipeline: pipeline_view(self.pipeline),
        }
    }
}

/// The options that option `prefixes` and option `no_pretty` of a scan stand
/// for.
pub open spec fn serializer_options_of(
    tokens: Seq<Seq<char>>,
    m: ScanModel,
    prefixes: int,
    no_pretty: int,
) -> Result<SerializerOptionsView, ArgFailure> {
    match value_of(tokens, m, prefixes) {
        None => Ok(SerializerOptionsView { prefixes: None, no_pretty: flag_of(m, no_pretty) }),
        Some(v) => match prefix_map_of(v) {
            Ok(pairs) => Ok(
                SerializerOptionsView { prefixes: Some(pairs), no_pretty: flag_of(m, no_pretty) },
            ),
            Err(_) => Err(invalid_value(m, prefixes)),
        },
    }
}

/// The view of the result of reading the shared options.
pub open spec fn options_result_view(r: Result<SerializerOptions, ArgError>) -> Result<
    SerializerOptionsView,
    ArgFailure,
> {
    match r {
        Ok(o) => Ok(o@),
        Err(e) => Err(e@),
    }
}

/// Reads the shared options from a scan in which they are option `prefixes`
/// and option `no_pretty`.
pub(crate) fn serializer_options(tokens: &Vec<String>, scan: &Scan, prefixes: usize, no_pretty: usize) -> (r:
    Result<SerializerOptions, ArgError>)
    requires
        prefixes < scan.values@.len(),
        no_pretty < scan.values@.len(),
        in_bounds(scan@, texts(tokens@)),
    ensures
        options_result_view(r) == serializer_options_of(
            texts(tokens@),
            scan@,
            prefixes as int,
            no_pretty as int,
        ),
{
    let flag = option_given(scan, no_pretty);
    match option_value(tokens, scan, prefixes) {
        None => Ok(SerializerOptions { prefixes: None, no_pretty: flag }),
        Some(v) => match parse_prefix_map(v.as_str()) {
            Ok(pairs) => Ok(SerializerOptions { prefixes: Some(pairs), no_pretty: flag }),
            Err(_) => Err(invalid_value_error(scan, prefixes)),
        },
    }
}

/// The options of the stage: `-f`, `--format`; `-o`, `--output`; `-p`,
/// `--prefixes`; `-P`, `--no-pretty`.
pub open spec fn options() -> Seq<OptSpec> {
    seq![
        OptSpec { short: 'f', long: "format", takes_value: true },
        OptSpec { short: 'o', long: "output", takes_value: true },
        OptSpec { short: 'p', long: "prefixes", takes_value: true },
        OptSpec { short: 'P', long: "no-pretty", takes_value: false },
    ]
}

/// The arguments that the tokens from `start` on stand for. The stage takes
/// no positional argument; it needs a format or an output file; a next stage
/// is accepted only beside an output file.
pub open spec fn args_of(tokens: Seq<Seq<char>>, start: int) -> Result<ArgsView, ArgFailure> {
    match scan_tokens(options(), tokens, start) {
        Err(e) => Err(e),
        Ok(m) => match arity_failure(m, 0, 0, tokens.len() as int) {
            Some(e) => Err(e),
            None => match format_of(tokens, m, 0) {
                Err(e) => Err(e),
                Ok(format) => match serializer_options_of(tokens, m, 2, 3) {
                    Err(e) => Err(e),
                    Ok(options) => {
                        let output = value_of(tokens, m, 1);
                        if format is None && output is None {
                            Err(
                                ArgFailure {
                                    kind: ArgErrorKind::MissingArgument,
                                    at: tokens.len() as int,
                                },
                            )
                        } else if output is None && m.pipeline is Some {
                            Err(unexpected_pipe(m))
                        } else {
                            Ok(
                                ArgsView {
                                    format,
                                    output,
                                    options,
                                    pipeline: pipeline_of(tokens, m),
                                },
                            )
                        }
                    },
                },
            },
        },
    }
}

impl Args {
    /// Parses the arguments of the stage from the tokens from `start` on.
    pub fn from_tokens(tokens: &Vec<String>, start: usize) -> (r: Result<Args, ArgError>)
        requires
            start <= tokens@.len(),
        ensures
            parsed_view(r) == args_of(texts(tokens@), start as int),
    {
        let opts = vec![
            OptSpec { short: 'f', long: "format", takes_value: true },
            OptSpec { short: 'o', long: "output", takes_value: true },
            OptSpec { short: 'p', long: "prefixes", takes_value: true },
            OptSpec { short: 'P', long: "no-pretty", takes_value: false },
        ];
        assert(opts@ =~= options());
        let scan = match scan_strings(&opts, tokens, start) {
            Ok(scan) => scan,
            Err(e) => {
                return Err(e);
            },
        };
        match check_arity(&scan, 0, 0, tokens.len()) {
            Ok(_) => {},
            Err(e) => {
                return Err(e);
            },
        }
        let format = match format_option(tokens, &scan, 0) {
            Ok(f) => f,
            Err(e) => {
                return Err(e);
            },
        };
        let options = match serializer_options(tokens, &scan, 2, 3) {
            Ok(o) => o,
            Err(e) => {
                return Err(e);
            },
        };
        let output = option_value(tokens, &scan, 1);
        if format.is_none() && output.is_none() {
            return Err(ArgError { kind: ArgErrorKind::MissingArgument, at: tokens.len() });
        }
        if output.is_none() && scan.pipeline.is_some() {
            return Err(unexpected_pipe_error(&scan));
        }
        Ok(Args { main: SerializerArgs { format, output }, options, pipeline: piped(tokens, &scan) })
    }
}

/// What stands behind the last dot of a file name; the whole name where it
/// has no dot.
pub open spec fn extension_of(name: Seq<char>) -> Seq<char> {
    name.skip(after_last(name, '.', name.len() as int))
}

/// What stands behind the last dot of `name`; the whole name where it has no
/// dot.
pub fn extension(name: &str) -> (r: String)
    ensures
        r@ == extension_of(name@),
{
    let chars = chars_of(name);
    let from = after_last_char(&chars, '.');
    tail_of(name, from)
}

/// The format to write: the one that was asked for, else the one that the
/// extension of the output file names. There is none where neither is given
/// or the extension names no format.
pub open spec fn chosen_format(format: Option<Format>, output: Option<Seq<char>>) -> Option<
    Format,
> {
    match format {
        Some(f) => Some(f),
        None => match output {
            Some(name) => format_named(extension_of(name)),
            None => None,
        },
    }
}

/// No format was given and none could be guessed.
#[derive(Debug, PartialEq, Eq)]
pub struct GuessError {
    /// The name of the output file, if there is one.
    pub filename: Option<String>,
}

impl GuessError {
    /// The message of this error.
    pub fn to_string(&self) -> (r: String)
        ensures
            r@ == match self.filename {
                Some(name) => "Can not guess format for file \""@ + name@
                    + "\", please specify with --format"@,
                None => "Can not guess format, please specify with --format"@,
            },
    {
        match &self.filename {
            Some(name) => {
                let mut m = String::from_str("Can not guess format for file \"");
                m.append(name.as_str());
                m.append("\", please specify with --format");
                m
            },
            None => String::from_str("Can not guess format, please specify with --format"),
        }
    }
}

/// The format to write for the given arguments.
pub fn guess_format(main: &SerializerArgs) -> (r: Result<Format, GuessError>)
    ensures
        match r {
            Ok(f) => chosen_format(main.format, text_view(main.output)) == Some(f),
            Err(e) => chosen_format(main.format, text_view(main.output)) is None && text_view(
                e.filename,
            ) == text_view(main.output),
        },
{
    match main.format {
        Some(f) => Ok(f),
        None => match &main.output {
            Some(name) => {
                let ext = extension(name.as_str());
                match Format::from_str(ext.as_str()) {
                    Ok(f) => Ok(f),
                    Err(_) => Err(GuessError { filename: Some(name.clone()) }),
                }
            },
            None => Err(GuessError { filename: None }),
        },
    }
}

/// A serializer.
#[derive(Clone, Copy, Debug, PartialEq, Eq, Structural)]
pub enum SerializerKind {
    JsonLd,
    NQuads,
    NTriples,
    RdfXml,
    TriG,
    Turtle,
    YamlLd,
}

/// A serializer with its settings.
#[derive(Clone, Copy, Debug, PartialEq, Eq, Structural)]
pub struct SerializerPlan {
    pub kind: SerializerKind,
    /// The serializer writes triples: it is given the quads of the default
    /// graph only.
    pub triples_only: bool,
    /// The number of blanks of one level of indentation, where the
    /// serializer indents by a number.
    pub indent: u8,
    /// Whether the serializer is asked to write for readers.
    pub pretty: bool,
    /// Whether the serializer takes the prefixes of the options.
    pub takes_prefixes: bool,
}

/// The serializer for a format, and its settings. JSON-LD is indented by 2,
/// RDF/XML by 4, neither where `no_pretty` holds; N-Triples, RDF/XML and
/// Turtle write triples; TriG and Turtle take prefixes; YAML-LD is written
/// through plain JSON-LD. Nothing writes Generalized TriG or HDT.
pub open spec fn planned(format: Format, no_pretty: bool) -> Option<SerializerPlan> {
    match format {
        Format::GeneralizedTriG | Format::Hdt => None,
        Format::JsonLd => Some(
            SerializerPlan {
                kind: SerializerKind::JsonLd,
                triples_only: false,
                indent: if no_pretty {
                    0
                } else {
                    2
                },
                pretty: !no_pretty,
                takes_prefixes: false,
            },
        ),
        Format::NQuads | Format::GeneralizedNQuads => Some(
            SerializerPlan {
                kind: SerializerKind::NQuads,
                triples_only: false,
                indent: 0,
                pretty: !no_pretty,
                takes_prefixes: false,
            },
        ),
        Format::NTriples => Some(
            SerializerPlan {
                kind: SerializerKind::NTriples,
                triples_only: true,
                indent: 0,
                pretty: !no_pretty,
                takes_prefixes: false,
            },
        ),
        Format::RdfXml => Some(
            SerializerPlan {
                kind: SerializerKind::RdfXml,
                triples_only: true,
                indent: if no_pretty {
                    0
                } else {
                    4
                },
                pretty: !no_pretty,
                takes_prefixes: false,
            },
        ),
        Format::TriG => Some(
            SerializerPlan {
                kind: SerializerKind::TriG,
                triples_only: false,
                indent: 0,
                pretty: !no_pretty,
                takes_prefixes: true,
            },
        ),
        Format::Turtle => Some(
            SerializerPlan {
                kind: SerializerKind::Turtle,
                triples_only: true,
                indent: 0,
                pretty: !no_pretty,
                takes_prefixes: true,
            },
        ),
        Format::YamlLd => Some(
            SerializerPlan {
                kind: SerializerKind::YamlLd,
                triples_only: false,
                indent: 0,
                pretty: !no_pretty,
                takes_prefixes: false,
            },
        ),
    }
}

/// The serializer for `format`, and its settings.
pub fn plan_serializer(format: Format, no_pretty: bool) -> (r: Option<SerializerPlan>)
    ensures
        r == planned(format, no_pretty),
{
    let pretty = !no_pretty;
    match format {
        Format::GeneralizedTriG | Format::Hdt => None,
        Format::JsonLd => Some(
            SerializerPlan {
                kind: SerializerKind::JsonLd,
                triples_only: false,
                indent: if no_pretty {
                    0
                } else {
                    2
                },
                pretty,
                takes_prefixes: false,
            },
        ),
        Format::NQuads | Format::GeneralizedNQuads => Some(
            SerializerPlan {
                kind: SerializerKind::NQuads,
                triples_only: false,
                indent: 0,
                pretty,
                takes_prefixes: false,
            },
        ),
        Format::NTriples => Some(
            SerializerPlan {
                kind: SerializerKind::NTriples,
                triples_only: true,
                indent: 0,
                pretty,
                takes_prefixes: false,
            },
        ),
        Format::RdfXml => Some(
            SerializerPlan {
                kind: SerializerKind::RdfXml,
                triples_only: true,
                indent: if no_pretty {
                    0
                } else {
                    4
                },
                pretty,
                takes_prefixes: false,
            },
        ),
        Format::TriG => Some(
            SerializerPlan {
                kind: SerializerKind::TriG,
                triples_only: false,
                indent: 0,
                pretty,
                takes_prefixes: true,
            },
        ),
        Format::Turtle => Some(
            SerializerPlan {
                kind: SerializerKind::Turtle,
                triples_only: true,
                indent: 0,
                pretty,
                takes_prefixes: true,
            },
        ),
        Format::YamlLd => Some(
            SerializerPlan {
                kind: SerializerKind::YamlLd,
                triples_only: false,
                indent: 0,
                pretty,
                takes_prefixes: false,
            },
        ),
    }
}

/// The items that a serializer for triples gets to see: all but the quads of
/// named graphs, in order.
pub open spec fn default_graph_only(items: Seq<ItemView>) -> Seq<ItemView> {
    items.filter(|item: ItemView| !is_labelled(item))
}

/// Whether a stream holds a quad of a named graph.
pub open spec fn has_labelled(items: Seq<ItemView>) -> bool {
    exists|i: int| 0 <= i < items.len() && is_labelled(#[trigger] items[i])
}

/// The message of the warning that tells that named graphs were left out.
pub open spec fn ignored_graphs_warning() -> Seq<char> {
    "Named graphs are ignored when serializing to triples-only format."@
}

/// Leaves the quads of named graphs out of a stream, for a serializer that
/// writes triples. The second result is the warning to give: there is one,
/// and only one, where a quad was left out.
pub fn serialize_triples(quads: QuadIter) -> (r: (QuadIter, Option<String>))
    ensures
        r.0@ == default_graph_only(quads@),
        text_view(r.1) == if has_labelled(quads@) {
            Some(ignored_graphs_warning())
        } else {
            None
        },
{
    let mut rest = quads;
    let mut out: Vec<QuadIterItem> = Vec::new();
    let mut warned = false;
    assert(quads@.take(0) =~= Seq::<ItemView>::empty());
    while rest.count() > 0
        invariant
            rest@.len() <= quads@.len(),
            rest@ == quads@.skip(quads@.len() - rest@.len()),
            items_view(out@) == default_graph_only(quads@.take(quads@.len() - rest@.len())),
            warned == has_labelled(quads@.take(quads@.len() - rest@.len())),
        decreases rest@.len(),
    {
        let ghost n = quads@.len() - rest@.len();
        let ghost seen = quads@.take(n);
        let ghost out_before = items_view(out@);
        let item = rest.next().unwrap();
        let ghost seen2 = quads@.take(n + 1);
        proof {
            assert(seen2.drop_last() =~= seen);
            assert(seen2.last() == quads@[n]);
            assert(item_view(item) == quads@[n]);
            reveal(Seq::filter);
            assert(rest@ =~= quads@.skip(n + 1));
            if has_labelled(seen) {
                let i = choose|i: int| 0 <= i < seen.len() && is_labelled(#[trigger] seen[i]);
                assert(is_labelled(seen2[i]));
            }
            if has_labelled(seen2) && !is_labelled(quads@[n]) {
                let i = choose|i: int| 0 <= i < seen2.len() && is_labelled(#[trigger] seen2[i]);
                assert(is_labelled(seen[i]));
            }
            if is_labelled(quads@[n]) {
                assert(is_labelled(seen2[n]));
            }
        }
        let labelled = match &item {
            Ok(q) => q.g.is_some(),
            Err(_) => false,
        };
        if labelled {
            warned = true;
        } else {
            out.push(item);
            assert(items_view(out@) =~= out_before.push(quads@[n]));
        }
    }
    assert(quads@.take(quads@.len() as int) =~= quads@);
    let warning = if warned {
        Some(String::from_str("Named graphs are ignored when serializing to triples-only format."))
    } else {
        None
    };
    (QuadIter::new(out), warning)
}

/// Runs the stage. With an output file and a next stage, the quads go both
/// ways: the file gets every quad of the stream, and the stream is handed to
/// the next stage as it is; nothing about the file changes what the next
/// stage does. Else the stage is handed back with the stream that reached
/// it, for the serializer outside the library.
pub fn run(quads: QuadIter, args: Args) -> (r: Handled)
    ensures
        r@ == handled(StageView::Serialize(args@), quads@),
    decreases rank(args@.pipeline), 1nat,
{
    if args.pipeline.is_some() && args.main.output.is_some() {
        let format = match guess_format(&args.main) {
            Ok(format) => Some(format),
            Err(_) => None,
        };
        let items = quads.collect();
        let mirror = mirror_of(&items);
        let Args { main, options, pipeline } = args;
        let output = main.output.unwrap();
        let mut jobs: Vec<Job> = Vec::new();
        jobs.push(Job::Tee { output, format, options, quads: mirror });
        assert(jobs_view(jobs@) =~= seq![jobs@[0]@]);
        let rest = pass_on(pipeline, QuadIter::new(items));
        prepend_jobs(jobs, rest)
    } else {
        just(End::Delegated { stage: SinkSubcommand::Serialize(args), stream: quads })
    }
}

} // verus!
