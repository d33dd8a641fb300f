//! Reading quads from one source or from many.
//!
//! Opening files, fetching URLs and decoding a syntax are the caller's work.
//! The library decides what may be asked for, which format and base a source
//! is read with, and what becomes of the streams of many sources: the quads
//! of each source get that source's suffix on their blank nodes and go into
//! one channel; a source that cannot be had, or whose stream yields an error,
//! is reported and does not stop the others.

use vstd::prelude::*;
use crate::bnode::{
    bnode_suffix, lemma_source_quads_share_no_blank_node, quad_bnode_ids, source_suffix,
};
use crate::cli::text_view;
use crate::file_or_url::{FileOrUrl, FileOrUrlView};
use crate::files_or_url::FilesOrUrl;
use crate::format::{Format, format_named};
use crate::iri::absolute_iri_ref;
use crate::pipe::{PipeError, PipeFailure, PipeSubcommand, pipe_failure, pipeline_view};
use crate::quad_handler::{Handled, HandledView, QuadHandler, passed_on};
use crate::stage::stage_of;
use crate::quad_iter::ok_items;
use crate::relativize::{Relativizer, relativized_items};
use crate::quad_handler::{End, sent, send_quads, source_warning};
use crate::quad_iter::{ItemView, QuadIter, first_error, quads_view};
use crate::sequence::reversed;
use crate::serialize::{extension, extension_of};
use crate::term::{Quad, QuadView};
use crate::text::{chars_of, find_char, find_from, part_of};
use crate::verbosity::{Level, Log, LogView, logs_view};

verus! {

/// Options for the parsers.
#[derive(Debug, PartialEq, Eq)]
pub struct ParserOptions {
    /// A directory whose subdirectories stand for sites: documents of the
    /// site `https://SUBDIR/` are read from the subdirectory `SUBDIR`.
    pub loader_local: Option<String>,
    /// Whether documents that are not at hand may be fetched.
    pub loader_urls: bool,
}

/// The arguments of the stage that reads quads.
#[derive(Debug, PartialEq, Eq)]
pub struct Args {
    /// The one source; without it, and without `multiple`, the standard
    /// input.
    pub file_or_url: Option<FileOrUrl>,
    /// Many sources.
    pub multiple: Vec<FilesOrUrl>,
    /// The format of the sources.
    pub format: Option<Format>,
    /// The base against which relative IRIs are resolved.
    pub base: Option<String>,
    /// Whether the IRIs of the quads are made relative to the base of the
    /// source again, once they are read.
    pub relativize: bool,
    pub options: ParserOptions,
    /// The next stage, unparsed.
    pub pipeline: Option<PipeSubcommand>,
}

/// Why the arguments are refused before anything is read.
#[derive(Clone, Copy, Debug, PartialEq, Eq, Structural)]
pub enum PreflightError {
    /// One source and many sources were both asked for.
    SingleAndMultiple,
    /// A base was given for many sources: it could be the base of one of
    /// them only.
    BaseWithMultiple,
    /// Relative IRIs were asked for with many sources: they would no longer
    /// tell which source they are relative to.
    RelativizeWithMultiple,
}

/// What is wrong with the arguments, if anything.
pub open spec fn preflight_failure(
    has_single: bool,
    many: nat,
    has_base: bool,
    relativize: bool,
) -> Option<PreflightError> {
    if many > 0 && has_single {
        Some(PreflightError::SingleAndMultiple)
    } else if many > 0 && has_base {
        Some(PreflightError::BaseWithMultiple)
    } else if many > 0 && relativize {
        Some(PreflightError::RelativizeWithMultiple)
    } else {
        None
    }
}

impl PreflightError {
    /// The message of this error.
    pub fn to_string(&self) -> (r: String)
        ensures
            r@ == match *self {
                PreflightError::SingleAndMultiple =>
                    "A single source cannot be used with --multiple"@,
                PreflightError::BaseWithMultiple => "--base cannot be used with --multiple"@,
                PreflightError::RelativizeWithMultiple =>
                    "--relativize cannot be used with --multiple"@,
            },
    {
        match self {
            PreflightError::SingleAndMultiple => String::from_str(
                "A single source cannot be used with --multiple",
            ),
            PreflightError::BaseWithMultiple => String::from_str(
                "--base cannot be used with --multiple",
            ),
            PreflightError::RelativizeWithMultiple => String::from_str(
                "--relativize cannot be used with --multiple",
            ),
        }
    }
}

/// Checks the arguments before anything is read.
pub fn preflight(args: &Args) -> (r: Result<(), PreflightError>)
    ensures
        match r {
            Ok(_) => preflight_failure(
                args.file_or_url is Some,
                args.multiple@.len(),
                args.base is Some,
                args.relativize,
            ) is None,
            Err(e) => preflight_failure(
                args.file_or_url is Some,
                args.multiple@.len(),
                args.base is Some,
                args.relativize,
            ) == Some(e),
        },
{
    if args.multiple.len() > 0 && args.file_or_url.is_some() {
        Err(PreflightError::SingleAndMultiple)
    } else if args.multiple.len() > 0 && args.base.is_some() {
        Err(PreflightError::BaseWithMultiple)
    } else if args.multiple.len() > 0 && args.relativize {
        Err(PreflightError::RelativizeWithMultiple)
    } else {
        Ok(())
    }
}

impl Args {
    /// The single source to read: the one that was given, else the standard
    /// input.
    pub fn source(&self) -> (r: FileOrUrl)
        ensures
            r@ == match self.file_or_url {
                Some(source) => source@,
                None => FileOrUrlView::StdIn,
            },
    {
        match &self.file_or_url {
            Some(source) => source.clone(),
            None => FileOrUrl::StdIn,
        }
    }
}

/// The message for a source that could not be had: it names the source.
pub open spec fn acquisition_failure(name: Seq<char>, why: Seq<char>) -> Seq<char> {
    name + ": "@ + why
}

/// The message for a source that could not be had.
pub fn acquisition_error(name: &str, why: &str) -> (r: String)
    ensures
        r@ == acquisition_failure(name@, why@),
{
    let mut m = String::from_str(name);
    m.append(": ");
    m.append(why);
    m
}

/// What is known of a source that may tell its format.
#[derive(Debug, PartialEq, Eq)]
pub enum FormatHint {
    /// The standard input tells nothing.
    StdIn,
    /// A file has a name.
    File(String),
    /// The answer to a request may state a content type.
    ContentType(Option<String>),
}

/// The mathematical model of a [`FormatHint`].
pub enum FormatHintView {
    StdIn,
    File(Seq<char>),
    ContentType(Option<Seq<char>>),
}

impl View for FormatHint {
    type V = FormatHintView;

    open spec fn view(&self) -> FormatHintView {
        match self {
            FormatHint::StdIn => FormatHintView::StdIn,
            FormatHint::File(name) => FormatHintView::File(name@),
            FormatHint::ContentType(t) => FormatHintView::ContentType(text_view(*t)),
        }
    }
}

/// Why the format of a source is not known.
#[derive(Debug, PartialEq, Eq)]
pub enum FormatGuessError {
    /// No format was given for the standard input.
    StdIn,
    /// The answer to the request states no content type.
    Url,
    /// The extension of the file, or the content type, names no format.
    Unrecognized(String),
}

/// The mathematical model of a [`FormatGuessError`].
pub enum FormatGuessFailure {
    StdIn,
    Url,
    Unrecognized(Seq<char>),
}

impl View for FormatGuessError {
    type V = FormatGuessFailure;

    open spec fn view(&self) -> FormatGuessFailure {
        match self {
            FormatGuessError::StdIn => FormatGuessFailure::StdIn,
            FormatGuessError::Url => FormatGuessFailure::Url,
            FormatGuessError::Unrecognized(name) => FormatGuessFailure::Unrecognized(name@),
        }
    }
}

impl FormatGuessError {
    /// The message of this error.
    pub fn to_string(&self) -> (r: String)
        ensures
            r@ == match self@ {
                FormatGuessFailure::StdIn => "Cannot guess format for stdin"@,
                FormatGuessFailure::Url => "Cannot guess format for URL"@,
                FormatGuessFailure::Unrecognized(name) => "Unrecognized format: "@ + name,
            },
    {
        match self {
            FormatGuessError::StdIn => String::from_str("Cannot guess format for stdin"),
            FormatGuessError::Url => String::from_str("Cannot guess format for URL"),
            FormatGuessError::Unrecognized(name) => String::from_str(
                "Unrecognized format: ",
            ).concat(name.as_str()),
        }
    }
}

/// What stands before the first semicolon of a content type.
pub open spec fn media_type_of(content_type: Seq<char>) -> Seq<char> {
    content_type.take(find_from(content_type, ';', 0))
}

/// What stands before the first semicolon of a content type.
pub fn media_type(content_type: &str) -> (r: String)
    ensures
        r@ == media_type_of(content_type@),
{
    let chars = chars_of(content_type);
    let end = find_char(&chars, ';', 0);
    let r = part_of(content_type, 0, end);
    assert(content_type@.subrange(0, end as int) =~= content_type@.take(end as int));
    r
}

/// The format that a source is read with: the one that was given, else the
/// one that the extension of the file or the content type names.
pub open spec fn source_format_of(given: Option<Format>, hint: FormatHintView) -> Result<
    Format,
    FormatGuessFailure,
> {
    match given {
        Some(f) => Ok(f),
        None => match hint {
            FormatHintView::StdIn => Err(FormatGuessFailure::StdIn),
            FormatHintView::File(name) => match format_named(extension_of(name)) {
                Some(f) => Ok(f),
                None => Err(FormatGuessFailure::Unrecognized(extension_of(name))),
            },
            FormatHintView::ContentType(None) => Err(FormatGuessFailure::Url),
            FormatHintView::ContentType(Some(t)) => match format_named(media_type_of(t)) {
                Some(f) => Ok(f),
                None => Err(FormatGuessFailure::Unrecognized(media_type_of(t))),
            },
        },
    }
}

/// The format that a source is read with.
pub fn source_format(given: Option<Format>, hint: &FormatHint) -> (r: Result<
    Format,
    FormatGuessError,
>)
    ensures
        match r {
            Ok(f) => source_format_of(given, hint@) == Ok::<Format, FormatGuessFailure>(f),
            Err(e) => source_format_of(given, hint@) == Err::<Format, FormatGuessFailure>(e@),
        },
{
    match given {
        Some(f) => Ok(f),
        None => match hint {
            FormatHint::StdIn => Err(FormatGuessError::StdIn),
            FormatHint::File(name) => {
                let ext = extension(name.as_str());
                match Format::from_str(ext.as_str()) {
                    Ok(f) => Ok(f),
                    Err(e) => Err(FormatGuessError::Unrecognized(e.name)),
                }
            },
            FormatHint::ContentType(None) => Err(FormatGuessError::Url),
            FormatHint::ContentType(Some(t)) => {
                let m = media_type(t.as_str());
                match Format::from_str(m.as_str()) {
                    Ok(f) => Ok(f),
                    Err(e) => Err(FormatGuessError::Unrecognized(e.name)),
                }
            },
        },
    }
}

/// The formats that a request for a URL says it accepts.
pub open spec fn accept_header() -> Seq<char> {
    "application/n-quads, application/n-triples, application/trig;q=0.9, text/turtle;q=0.9, application/ld+json;q=0.8, application/rdf+xml;q=0.7, */*;q=0.1"@
}

/// The formats that a request for a URL says it accepts.
pub fn accept() -> (r: &'static str)
    ensures
        r@ == accept_header(),
{
    "application/n-quads, application/n-triples, application/trig;q=0.9, text/turtle;q=0.9, application/ld+json;q=0.8, application/rdf+xml;q=0.7, */*;q=0.1"
}

/// The base of a source for which none was given: a fixed one for the
/// standard input; the URL itself; for a file, its absolute path as a
/// `file:` IRI.
pub open spec fn default_base(source: FileOrUrlView) -> Seq<char> {
    match source {
        FileOrUrlView::StdIn => "x-stdin://"@,
        FileOrUrlView::Url(url) => url,
        FileOrUrlView::File(path) => "file://"@ + path,
    }
}

/// The base that a source is read with: the one that was given, else the
/// default; there is none where the path of a file makes no IRI.
pub open spec fn source_base_of(given: Option<Seq<char>>, source: FileOrUrlView) -> Option<
    Seq<char>,
> {
    match given {
        Some(base) => Some(base),
        None => if source is File && !absolute_iri_ref(default_base(source)) {
            None
        } else {
            Some(default_base(source))
        },
    }
}

/// The base that a source is read with. For a file, `source` holds its
/// absolute path.
pub fn source_base(given: Option<String>, source: &FileOrUrl) -> (r: Option<String>)
    ensures
        text_view(r) == source_base_of(text_view(given), source@),
{
    match given {
        Some(base) => Some(base),
        None => match source {
            FileOrUrl::StdIn => Some(String::from_str("x-stdin://")),
            FileOrUrl::Url(url) => Some(url.clone()),
            FileOrUrl::File(path) => {
                let iri = String::from_str("file://").concat(path.as_str());
                if sophia::iri::is_absolute_iri_ref(iri.as_str()) {
                    Some(iri)
                } else {
                    None
                }
            },
        },
    }
}

/// A parser.
#[derive(Clone, Copy, Debug, PartialEq, Eq, Structural)]
pub enum ParserKind {
    GeneralizedNQuads,
    GeneralizedTriG,
    JsonLd,
    NQuads,
    NTriples,
    RdfXml,
    TriG,
    Turtle,
}

/// Where a parser may take documents from that the source refers to.
#[derive(Clone, Copy, Debug, PartialEq, Eq, Structural)]
pub enum Loaders {
    /// The parser loads nothing.
    Nothing,
    /// From the local directory only.
    Local,
    /// From the local directory, then from files, then from the web.
    LocalThenFileThenWeb,
}

/// A parser with its settings.
#[derive(Clone, Copy, Debug, PartialEq, Eq, Structural)]
pub struct ParserPlan {
    pub kind: ParserKind,
    /// Whether the parser is given the base.
    pub takes_base: bool,
    /// Whether the parser yields triples, which become quads of the default
    /// graph.
    pub yields_triples: bool,
    pub loaders: Loaders,
}

/// The parser for a format, and its settings. The line-based formats have
/// no base; N-Triples, RDF/XML and Turtle yield triples; only JSON-LD loads
/// documents. Nothing reads HDT or YAML-LD.
pub open spec fn planned_parser(format: Format, loader_urls: bool) -> Option<ParserPlan> {
    match format {
        Format::Hdt | Format::YamlLd => None,
        Format::GeneralizedNQuads => Some(
            ParserPlan {
                kind: ParserKind::GeneralizedNQuads,
                takes_base: false,
                yields_triples: false,
                loaders: Loaders::Nothing,
            },
        ),
        Format::GeneralizedTriG => Some(
            ParserPlan {
                kind: ParserKind::GeneralizedTriG,
                takes_base: true,
                yields_triples: false,
                loaders: Loaders::Nothing,
            },
        ),
        Format::JsonLd => Some(
            ParserPlan {
                kind: ParserKind::JsonLd,
                takes_base: true,
                yields_triples: false,
                loaders: if loader_urls {
                    Loaders::LocalThenFileThenWeb
                } else {
                    Loaders::Local
                },
            },
        ),
        Format::NQuads => Some(
            ParserPlan {
                kind: ParserKind::NQuads,
                takes_base: false,
                yields_triples: false,
                loaders: Loaders::Nothing,
            },
        ),
        Format::NTriples => Some(
            ParserPlan {
                kind: ParserKind::NTriples,
                takes_base: false,
                yields_triples: true,
                loaders: Loaders::Nothing,
            },
        ),
        Format::RdfXml => Some(
            ParserPlan {
                kind: ParserKind::RdfXml,
                takes_base: true,
                yields_triples: true,
                loaders: Loaders::Nothing,
            },
        ),
        Format::TriG => Some(
            ParserPlan {
                kind: ParserKind::TriG,
                takes_base: true,
                yields_triples: false,
                loaders: Loaders::Nothing,
            },
        ),
        Format::Turtle => Some(
            ParserPlan {
                kind: ParserKind::Turtle,
                takes_base: true,
                yields_triples: true,
                loaders: Loaders::Nothing,
            },
        ),
    }
}

/// The parser for `format`, and its settings.
pub fn parse_read(format: Format, loader_urls: bool) -> (r: Option<ParserPlan>)
    ensures
        r == planned_parser(format, loader_urls),
{
    let none = Loaders::Nothing;
    match format {
        Format::Hdt | Format::YamlLd => None,
        Format::GeneralizedNQuads => Some(
            ParserPlan {
                kind: ParserKind::GeneralizedNQuads,
                takes_base: false,
                yields_triples: false,
                loaders: none,
            },
        ),
        Format::GeneralizedTriG => Some(
            ParserPlan {
                kind: ParserKind::GeneralizedTriG,
                takes_base: true,
                yields_triples: false,
                loaders: none,
            },
        ),
        Format::JsonLd => Some(
            ParserPlan {
                kind: ParserKind::JsonLd,
                takes_base: true,
                yields_triples: false,
                loaders: if loader_urls {
                    Loaders::LocalThenFileThenWeb
                } else {
                    Loaders::Local
                },
            },
        ),
        Format::NQuads => Some(
            ParserPlan {
                kind: ParserKind::NQuads,
                takes_base: false,
                yields_triples: false,
                loaders: none,
            },
        ),
        Format::NTriples => Some(
            ParserPlan {
                kind: ParserKind::NTriples,
                takes_base: false,
                yields_triples: true,
                loaders: none,
            },
        ),
        Format::RdfXml => Some(
            ParserPlan {
                kind: ParserKind::RdfXml,
                takes_base: true,
                yields_triples: true,
                loaders: none,
            },
        ),
        Format::TriG => Some(
            ParserPlan {
                kind: ParserKind::TriG,
                takes_base: true,
                yields_triples: false,
                loaders: none,
            },
        ),
        Format::Turtle => Some(
            ParserPlan {
                kind: ParserKind::Turtle,
                takes_base: true,
                yields_triples: true,
                loaders: none,
            },
        ),
    }
}

/// The site that the subdirectory called `name` of the local directory
/// stands for, if the name makes an IRI.
pub open spec fn mounted_site(name: Seq<char>) -> Option<Seq<char>> {
    if absolute_iri_ref("https://"@ + name + "/"@) {
        Some("https://"@ + name + "/"@)
    } else {
        None
    }
}

/// The site that the subdirectory called `name` of the local directory
/// stands for, if the name makes an IRI.
pub fn make_fs_loader(name: &str) -> (r: Option<String>)
    ensures
        text_view(r) == mounted_site(name@),
{
    let mut iri = String::from_str("https://");
    iri.append(name);
    iri.append("/");
    if sophia::iri::is_absolute_iri_ref(iri.as_str()) {
        Some(iri)
    } else {
        None
    }
}

/// One source of many, as far as it could be had: its stream, or the reason
/// why there is none.
#[derive(Debug)]
pub struct Source {
    /// What the source is called in the log.
    pub name: String,
    /// The base that the source was read with.
    pub base: String,
    /// The stream of the source, or why the source could not be had.
    pub outcome: Result<QuadIter, String>,
}

/// The mathematical model of a [`Source`].
pub struct SourceView {
    pub name: Seq<char>,
    pub base: Seq<char>,
    pub outcome: Result<Seq<ItemView>, Seq<char>>,
}

impl View for Source {
    type V = SourceView;

    open spec fn view(&self) -> SourceView {
        SourceView {
            name: self.name@,
            base: self.base@,
            outcome: match self.outcome {
                Ok(stream) => Ok(stream@),
                Err(why) => Err(why@),
            },
        }
    }
}

/// The views of the sources of a sequence.
pub open spec fn all_sources_view(sources: Seq<Source>) -> Seq<SourceView> {
    Seq::new(sources.len(), |i: int| sources[i]@)
}

/// The quads that the source with index `index` sends into the channel: the
/// quads of its stream before the first error, with the suffix of the source
/// on their blank nodes; none where the source could not be had.
pub open spec fn source_quads(source: SourceView, run: u64, index: int) -> Seq<QuadView> {
    match source.outcome {
        Ok(stream) => sent(source.name, source_suffix(run, index as u64), stream)->Sent_quads,
        Err(_) => Seq::empty(),
    }
}

/// What is logged for a source: an error that names it where it could not
/// be had, a warning that names it where its stream yields an error, else
/// nothing.
pub open spec fn source_logs(source: SourceView) -> Seq<LogView> {
    match source.outcome {
        Err(why) => seq![
            LogView { level: Level::Error, message: acquisition_failure(source.name, why) },
        ],
        Ok(stream) => if first_error(stream) < stream.len() {
            seq![
                LogView {
                    level: Level::Warn,
                    message: source_warning(source.name, stream[first_error(stream)]->Err_0),
                },
            ]
        } else {
            Seq::empty()
        },
    }
}

/// What the first `upto` sources send into the channel, one source after the
/// other.
pub open spec fn channel_upto(sources: Seq<SourceView>, run: u64, upto: int) -> Seq<QuadView>
    decreases upto,
{
    if upto <= 0 {
        Seq::empty()
    } else {
        channel_upto(sources, run, upto - 1) + source_quads(sources[upto - 1], run, upto - 1)
    }
}

/// What is logged for the first `upto` sources.
pub open spec fn logs_upto(sources: Seq<SourceView>, upto: int) -> Seq<LogView>
    decreases upto,
{
    if upto <= 0 {
        Seq::empty()
    } else {
        logs_upto(sources, upto - 1) + source_logs(sources[upto - 1])
    }
}

/// What reading many sources gave: the quads for the collector, and the
/// log.
#[derive(Debug, PartialEq, Eq)]
pub struct Ingested {
    pub channel: Vec<Quad>,
    pub logs: Vec<Log>,
}

/// Reads many sources into one channel, one source after the other. `run`
/// is the token of the run, from which the suffixes of the sources are made.
/// No source stops another, and none stops the run.
pub fn ingest(sources: Vec<Source>, run: u64) -> (r: Ingested)
    ensures
        quads_view(r.channel@) == channel_upto(
            all_sources_view(sources@),
            run,
            sources@.len() as int,
        ),
        logs_view(r.logs@) == logs_upto(all_sources_view(sources@), sources@.len() as int),
{
    let ghost all = all_sources_view(sources@);
    let ghost n = sources@.len();
    let total = sources.len();
    let mut reversed = reversed(sources);
    let mut channel: Vec<Quad> = Vec::new();
    let mut logs: Vec<Log> = Vec::new();
    let mut index: usize = 0;
    assert(quads_view(channel@) =~= channel_upto(all, run, 0));
    assert(logs_view(logs@) =~= logs_upto(all, 0));
    while reversed.len() > 0
        invariant
            reversed@.len() + index == n,
            n == all.len(),
            n == total,
            forall|k: int|
                0 <= k < reversed@.len() ==> (#[trigger] reversed@[k])@ == all[n - 1 - k],
            quads_view(channel@) == channel_upto(all, run, index as int),
            logs_view(logs@) == logs_upto(all, index as int),
        decreases reversed@.len(),
    {
        let ghost channel_before = quads_view(channel@);
        let ghost logs_before = logs_view(logs@);
        let source = reversed.pop().unwrap();
        assert(source@ == all[index as int]);
        let Source { name, base: _, outcome } = source;
        match outcome {
            Err(why) => {
                logs.push(
                    Log {
                        level: Level::Error,
                        message: acquisition_error(name.as_str(), why.as_str()),
                    },
                );
                assert(logs_view(logs@) =~= logs_before + source_logs(all[index as int]));
                assert(quads_view(channel@) =~= channel_before + source_quads(
                    all[index as int],
                    run,
                    index as int,
                ));
            },
            Ok(stream) => {
                let suffix = bnode_suffix(run, index as u64);
                match send_quads(name.as_str(), suffix.as_str(), stream) {
                    End::Sent { quads, warning } => {
                        let ghost added = quads_view(quads@);
                        let mut quads = quads;
                        channel.append(&mut quads);
                        assert(quads_view(channel@) =~= channel_before + added);
                        match warning {
                            Some(w) => {
                                logs.push(Log { level: Level::Warn, message: w });
                                assert(logs_view(logs@) =~= logs_before + source_logs(
                                    all[index as int],
                                ));
                            },
                            None => {
                                assert(logs_view(logs@) =~= logs_before + source_logs(
                                    all[index as int],
                                ));
                            },
                        }
                    },
                    _ => {
                        assert(false);
                    },
                }
            },
        }
        index += 1;
    }
    Ingested { channel, logs }
}

/// The blank nodes of two sources are kept apart in the channel: a quad that
/// one source sent and a quad that another source sent share no blank-node
/// identifier, whatever the identifiers were in the sources.
pub proof fn lemma_sources_kept_apart(
    sources: Seq<SourceView>,
    run: u64,
    i: int,
    j: int,
    a: int,
    b: int,
)
    requires
        sources.len() <= u64::MAX,
        0 <= i < sources.len(),
        0 <= j < sources.len(),
        i != j,
        0 <= a < source_quads(sources[i], run, i).len(),
        0 <= b < source_quads(sources[j], run, j).len(),
    ensures
        quad_bnode_ids(source_quads(sources[i], run, i)[a]).disjoint(
            quad_bnode_ids(source_quads(sources[j], run, j)[b]),
        ),
{
    let from_i = sources[i].outcome->Ok_0;
    let from_j = sources[j].outcome->Ok_0;
    lemma_source_quads_share_no_blank_node(
        run,
        i as u64,
        j as u64,
        from_i[a]->Ok_0,
        from_j[b]->Ok_0,
    );
}

/// A source that cannot be had sends nothing and changes nothing in what
/// the sources before it sent.
pub proof fn lemma_failed_source_sends_nothing(sources: Seq<SourceView>, run: u64, i: int)
    requires
        0 <= i < sources.len(),
        sources[i].outcome is Err,
    ensures
        channel_upto(sources, run, i + 1) == channel_upto(sources, run, i),
{
    assert(channel_upto(sources, run, i) + Seq::<QuadView>::empty() =~= channel_upto(
        sources,
        run,
        i,
    ));
}

/// What the sources before some point sent stays in the channel, at its
/// place, whatever the later sources do.
pub proof fn lemma_channel_grows(sources: Seq<SourceView>, run: u64, i: int, upto: int)
    requires
        0 <= i <= upto <= sources.len(),
    ensures
        channel_upto(sources, run, i).len() <= channel_upto(sources, run, upto).len(),
        channel_upto(sources, run, upto).take(channel_upto(sources, run, i).len() as int)
            == channel_upto(sources, run, i),
    decreases upto - i,
{
    if i < upto {
        lemma_channel_grows(sources, run, i, upto - 1);
        let shorter = channel_upto(sources, run, upto - 1);
        let whole = channel_upto(sources, run, upto);
        let part = channel_upto(sources, run, i);
        assert(whole.take(part.len() as int) =~= shorter.take(part.len() as int));
    } else {
        assert(channel_upto(sources, run, i).take(channel_upto(sources, run, i).len() as int)
            =~= channel_upto(sources, run, i));
    }
}

/// Every quad that a source sends is in the channel, whatever becomes of
/// the other sources: the quads of the source with index `i` stand together,
/// in their order, behind all that the sources before it sent.
pub proof fn lemma_source_quads_present(sources: Seq<SourceView>, run: u64, i: int)
    requires
        0 <= i < sources.len(),
    ensures
        ({
            let channel = channel_upto(sources, run, sources.len() as int);
            let from = channel_upto(sources, run, i).len() as int;
            let own = source_quads(sources[i], run, i);
            &&& from + own.len() <= channel.len()
            &&& channel.subrange(from, from + own.len()) == own
        }),
{
    let channel = channel_upto(sources, run, sources.len() as int);
    let before = channel_upto(sources, run, i);
    let own = source_quads(sources[i], run, i);
    lemma_channel_grows(sources, run, i + 1, sources.len() as int);
    let with_own = channel_upto(sources, run, i + 1);
    let from = before.len() as int;
    let to = from + own.len();
    assert(with_own == before + own);
    assert(channel.subrange(from, to) =~= channel.take(with_own.len() as int).subrange(from, to));
    assert(with_own.subrange(from, to) =~= own);
}

/// Why nothing was read.
#[derive(Debug, PartialEq, Eq)]
pub enum RunError {
    /// The arguments are refused.
    Preflight(PreflightError),
    /// The tokens behind the pipe marker are no stage.
    Pipe(PipeError),
    /// A single source was asked for, and not exactly one was handed in.
    SourceCount,
    /// The single source could not be had: the message names it.
    Source(String),
}

/// The mathematical model of a [`RunError`].
pub enum RunFailure {
    Preflight(PreflightError),
    Pipe(PipeFailure),
    SourceCount,
    Source(Seq<char>),
}

impl View for RunError {
    type V = RunFailure;

    open spec fn view(&self) -> RunFailure {
        match self {
            RunError::Preflight(e) => RunFailure::Preflight(*e),
            RunError::Pipe(e) => RunFailure::Pipe(e@),
            RunError::SourceCount => RunFailure::SourceCount,
            RunError::Source(why) => RunFailure::Source(why@),
        }
    }
}

/// What a run gave: the log, and what became of the quads.
#[derive(Debug)]
pub struct Ran {
    pub logs: Vec<Log>,
    pub handled: Handled,
}

/// The mathematical model of [`Ran`].
pub struct RanView {
    pub logs: Seq<LogView>,
    pub handled: HandledView,
}

impl View for Ran {
    type V = RanView;

    open spec fn view(&self) -> RanView {
        RanView { logs: logs_view(self.logs@), handled: self.handled@ }
    }
}

/// What a run gives. The arguments are checked and the next stage is parsed
/// before anything is read. A single source must be there, and its stream
/// goes to the sink, with its IRIs made relative to the base of the source
/// where that was asked for, and without a step up: that the source cannot
/// be had ends the run. Many sources go through the channel, whose quads the
/// sink gets; what fails in one of them is logged, and the run goes on.
pub open spec fn run_of(
    has_single: bool,
    many: nat,
    has_base: bool,
    relativize: bool,
    pipeline: Option<Seq<Seq<char>>>,
    sources: Seq<SourceView>,
    token: u64,
) -> Result<RanView, RunFailure> {
    match preflight_failure(has_single, many, has_base, relativize) {
        Some(e) => Err(RunFailure::Preflight(e)),
        None => if pipeline is Some && stage_of(pipeline->0) is Err {
            Err(RunFailure::Pipe(pipe_failure(stage_of(pipeline->0)->Err_0, pipeline->0)))
        } else if many == 0 {
            if sources.len() != 1 {
                Err(RunFailure::SourceCount)
            } else {
                match sources[0].outcome {
                    Err(why) => Err(
                        RunFailure::Source(acquisition_failure(sources[0].name, why)),
                    ),
                    Ok(stream) => Ok(
                        RanView {
                            logs: Seq::empty(),
                            handled: passed_on(
                                pipeline,
                                if relativize {
                                    relativized_items(sources[0].base, 0, stream)
                                } else {
                                    stream
                                },
                            ),
                        },
                    ),
                }
            }
        } else {
            Ok(
                RanView {
                    logs: logs_upto(sources, sources.len() as int),
                    handled: passed_on(
                        pipeline,
                        ok_items(channel_upto(sources, token, sources.len() as int)),
                    ),
                },
            )
        },
    }
}

/// The view of the result of a run.
pub open spec fn run_result_view(r: Result<Ran, RunError>) -> Result<RanView, RunFailure> {
    match r {
        Ok(ran) => Ok(ran@),
        Err(e) => Err(e@),
    }
}

/// Runs the stage on the sources that the caller opened or fetched, in the
/// order in which they are handed in. `token` is the token of the run, from
/// which the suffixes of many sources are made.
pub fn run(args: Args, sources: Vec<Source>, token: u64) -> (r: Result<Ran, RunError>)
    ensures
        run_result_view(r) == run_of(
            args.file_or_url is Some,
            args.multiple@.len(),
            args.base is Some,
            args.relativize,
            pipeline_view(args.pipeline),
            all_sources_view(sources@),
            token,
        ),
{
    match preflight(&args) {
        Err(e) => {
            return Err(RunError::Preflight(e));
        },
        Ok(_) => {},
    }
    let many = args.multiple.len() > 0;
    let relative = args.relativize;
    let ghost tokens = pipeline_view(args.pipeline);
    let handler = match QuadHandler::new(args.pipeline) {
        Ok(h) => h,
        Err(e) => {
            return Err(RunError::Pipe(e));
        },
    };
    if !many {
        let mut sources = sources;
        let ghost all = all_sources_view(sources@);
        if sources.len() != 1 {
            return Err(RunError::SourceCount);
        }
        let source = sources.pop().unwrap();
        assert(source@ == all[0]);
        let Source { name, base, outcome } = source;
        match outcome {
            Err(why) => Err(RunError::Source(acquisition_error(name.as_str(), why.as_str()))),
            Ok(stream) => {
                let stream = if relative {
                    Relativizer::new(base, 0).relativize_iter(stream)
                } else {
                    stream
                };
                let ghost input = stream@;
                let handled = handler.handle_quads(stream);
                assert(handled@ == passed_on(tokens, input));
                let logs: Vec<Log> = Vec::new();
                assert(logs_view(logs@) =~= Seq::<LogView>::empty());
                Ok(Ran { logs, handled })
            },
        }
    } else {
        let ingested = ingest(sources, token);
        let Ingested { channel, logs } = ingested;
        let ghost sent_quads = quads_view(channel@);
        let handled = handler.handle_quads(QuadIter::from_quads(channel));
        assert(handled@ == passed_on(tokens, ok_items(sent_quads)));
        Ok(Ran { logs, handled })
    }
}

} // verus!
