//! The stages that can stand behind a pipe marker, and how their names and
//! arguments are read from tokens.

use vstd::prelude::*;
use crate::absolutize;
use crate::canonicalize;
use crate::cli::{ArgError, ArgErrorKind, ArgFailure, lemma_pipeline_shorter, parsed_view};
use crate::dispatch;
use crate::filter;
use crate::merge;
use crate::null;
use crate::query;
use crate::relativize;
use crate::serialize;
use crate::text::{chars_of, text_is, texts};

verus! {

/// A stage that can stand behind a pipe marker, with its arguments.
#[derive(Debug, PartialEq, Eq)]
pub enum SinkSubcommand {
    Absolutize(absolutize::Args),
    Canonicalize(canonicalize::Args),
    Dispatch(dispatch::Args),
    Filter(filter::Args),
    Merge(merge::Args),
    Query(query::Args),
    Relativize(relativize::Args),
    Serialize(serialize::Args),
    Null(null::Args),
}

/// The mathematical model of a [`SinkSubcommand`].
pub enum StageView {
    Absolutize(absolutize::ArgsView),
    Canonicalize(canonicalize::ArgsView),
    Dispatch(dispatch::ArgsView),
    Filter(filter::ArgsView),
    Merge(merge::ArgsView),
    Query(query::ArgsView),
    Relativize(relativize::ArgsView),
    Serialize(serialize::ArgsView),
    Null,
}

impl View for SinkSubcommand {
    type V = StageView;

    open spec fn view(&self) -> StageView {
        match self {
            SinkSubcommand::Absolutize(a) => StageView::Absolutize(a@),
            SinkSubcommand::Canonicalize(a) => StageView::Canonicalize(a@),
            SinkSubcommand::Dispatch(a) => StageView::Dispatch(a@),
            SinkSubcommand::Filter(a) => StageView::Filter(a@),
            SinkSubcommand::Merge(a) => StageView::Merge(a@),
            SinkSubcommand::Query(a) => StageView::Query(a@),
            SinkSubcommand::Relativize(a) => StageView::Relativize(a@),
            SinkSubcommand::Serialize(a) => StageView::Serialize(a@),
            SinkSubcommand::Null(_) => StageView::Null,
        }
    }
}

/// The kinds of stages.
#[derive(Clone, Copy, Debug, PartialEq, Eq, Structural)]
pub enum StageKind {
    Absolutize,
    Canonicalize,
    Dispatch,
    Filter,
    Merge,
    Query,
    Relativize,
    Serialize,
    Null,
}

/// The kind of stage that `name` stands for. Every stage has a full name
/// and some short ones.
pub open spec fn stage_named(name: Seq<char>) -> Option<StageKind> {
    if name == "absolutize"@ || name == "a"@ || name == "ab"@ || name == "abs"@ {
        Some(StageKind::Absolutize)
    } else if name == "canonicalize"@ || name == "c"@ || name == "c14n"@ || name == "ca"@ || name
        == "can"@ {
        Some(StageKind::Canonicalize)
    } else if name == "dispatch"@ || name == "d"@ || name == "di"@ || name == "dis"@ {
        Some(StageKind::Dispatch)
    } else if name == "filter"@ || name == "f"@ || name == "fi"@ || name == "fil"@ {
        Some(StageKind::Filter)
    } else if name == "merge"@ || name == "m"@ || name == "merge-default-graph"@ || name == "me"@
        || name == "mer"@ {
        Some(StageKind::Merge)
    } else if name == "query"@ || name == "q"@ || name == "qu"@ || name == "que"@ {
        Some(StageKind::Query)
    } else if name == "relativize"@ || name == "r"@ || name == "re"@ || name == "rel"@ {
        Some(StageKind::Relativize)
    } else if name == "serialize"@ || name == "s"@ || name == "se"@ || name == "ser"@ {
        Some(StageKind::Serialize)
    } else if name == "null"@ || name == "n"@ || name == "Z"@ || name == "nu"@ || name == "nul"@ {
        Some(StageKind::Null)
    } else {
        None
    }
}

/// The kind of stage that `name` stands for.
pub fn stage_kind(name: &str) -> (r: Option<StageKind>)
    ensures
        r == stage_named(name@),
{
    let n = chars_of(name);
    if text_is(&n, "absolutize") || text_is(&n, "a") || text_is(&n, "ab") || text_is(&n, "abs") {
        Some(StageKind::Absolutize)
    } else if text_is(&n, "canonicalize") || text_is(&n, "c") || text_is(&n, "c14n") || text_is(
        &n,
        "ca",
    ) || text_is(&n, "can") {
        Some(StageKind::Canonicalize)
    } else if text_is(&n, "dispatch") || text_is(&n, "d") || text_is(&n, "di") || text_is(
        &n,
        "dis",
    ) {
        Some(StageKind::Dispatch)
    } else if text_is(&n, "filter") || text_is(&n, "f") || text_is(&n, "fi") || text_is(&n, "fil") {
        Some(StageKind::Filter)
    } else if text_is(&n, "merge") || text_is(&n, "m") || text_is(&n, "merge-default-graph")
        || text_is(&n, "me") || text_is(&n, "mer") {
        Some(StageKind::Merge)
    } else if text_is(&n, "query") || text_is(&n, "q") || text_is(&n, "qu") || text_is(&n, "que") {
        Some(StageKind::Query)
    } else if text_is(&n, "relativize") || text_is(&n, "r") || text_is(&n, "re") || text_is(
        &n,
        "rel",
    ) {
        Some(StageKind::Relativize)
    } else if text_is(&n, "serialize") || text_is(&n, "s") || text_is(&n, "se") || text_is(
        &n,
        "ser",
    ) {
        Some(StageKind::Serialize)
    } else if text_is(&n, "null") || text_is(&n, "n") || text_is(&n, "Z") || text_is(&n, "nu")
        || text_is(&n, "nul") {
        Some(StageKind::Null)
    } else {
        None
    }
}

/// The stage of the given kind with the arguments that the tokens behind the
/// first stand for.
pub open spec fn stage_with_args(kind: StageKind, tokens: Seq<Seq<char>>) -> Result<
    StageView,
    ArgFailure,
> {
    match kind {
        StageKind::Absolutize => match absolutize::args_of(tokens, 1) {
            Ok(a) => Ok(StageView::Absolutize(a)),
            Err(e) => Err(e),
        },
        StageKind::Canonicalize => match canonicalize::args_of(tokens, 1) {
            Ok(a) => Ok(StageView::Canonicalize(a)),
            Err(e) => Err(e),
        },
        StageKind::Dispatch => match dispatch::args_of(tokens, 1) {
            Ok(a) => Ok(StageView::Dispatch(a)),
            Err(e) => Err(e),
        },
        StageKind::Filter => match filter::args_of(tokens, 1) {
            Ok(a) => Ok(StageView::Filter(a)),
            Err(e) => Err(e),
        },
        StageKind::Merge => match merge::args_of(tokens, 1) {
            Ok(a) => Ok(StageView::Merge(a)),
            Err(e) => Err(e),
        },
        StageKind::Query => match query::args_of(tokens, 1) {
            Ok(a) => Ok(StageView::Query(a)),
            Err(e) => Err(e),
        },
        StageKind::Relativize => match relativize::args_of(tokens, 1) {
            Ok(a) => Ok(StageView::Relativize(a)),
            Err(e) => Err(e),
        },
        StageKind::Serialize => match serialize::args_of(tokens, 1) {
            Ok(a) => Ok(StageView::Serialize(a)),
            Err(e) => Err(e),
        },
        StageKind::Null => match null::args_of(tokens, 1) {
            Ok(_) => Ok(StageView::Null),
            Err(e) => Err(e),
        },
    }
}

/// The stage that the tokens stand for: the first token names it, the others
/// are its arguments.
pub open spec fn stage_of(tokens: Seq<Seq<char>>) -> Result<StageView, ArgFailure> {
    if tokens.len() == 0 {
        Err(ArgFailure { kind: ArgErrorKind::MissingStage, at: 0 })
    } else {
        match stage_named(tokens[0]) {
            None => Err(ArgFailure { kind: ArgErrorKind::UnknownStage, at: 0 }),
            Some(kind) => stage_with_args(kind, tokens),
        }
    }
}

/// The tokens of the stage that follows `stage`, if one does.
pub open spec fn next_tokens(stage: StageView) -> Option<Seq<Seq<char>>> {
    match stage {
        StageView::Absolutize(a) => a.pipeline,
        StageView::Canonicalize(_) => None,
        StageView::Dispatch(a) => a.pipeline,
        StageView::Filter(a) => a.pipeline,
        StageView::Merge(a) => a.pipeline,
        StageView::Query(a) => a.pipeline,
        StageView::Relativize(a) => a.pipeline,
        StageView::Serialize(a) => a.pipeline,
        StageView::Null => None,
    }
}

/// A stage holds fewer tokens for its successor than it was parsed from:
/// each pipe marker is parsed once, and parsing a chain of stages ends.
pub proof fn lemma_next_shorter(tokens: Seq<Seq<char>>)
    ensures
        stage_of(tokens) matches Ok(stage) ==> (next_tokens(stage) matches Some(next)
            ==> next.len() < tokens.len()),
{
    lemma_pipeline_shorter(Seq::empty(), tokens, 1);
    lemma_pipeline_shorter(dispatch::options(), tokens, 1);
    lemma_pipeline_shorter(merge::options(), tokens, 1);
    lemma_pipeline_shorter(query::options(), tokens, 1);
    lemma_pipeline_shorter(relativize::options(), tokens, 1);
    lemma_pipeline_shorter(serialize::options(), tokens, 1);
}

/// Parses a stage from its name and arguments.
pub fn parse_stage(tokens: &Vec<String>) -> (r: Result<SinkSubcommand, ArgError>)
    ensures
        parsed_view(r) == stage_of(texts(tokens@)),
{
    if tokens.len() == 0 {
        return Err(ArgError { kind: ArgErrorKind::MissingStage, at: 0 });
    }
    let kind = match stage_kind(tokens[0].as_str()) {
        Some(kind) => kind,
        None => {
            return Err(ArgError { kind: ArgErrorKind::UnknownStage, at: 0 });
        },
    };
    match kind {
        StageKind::Absolutize => match absolutize::Args::from_tokens(tokens, 1) {
            Ok(a) => Ok(SinkSubcommand::Absolutize(a)),
            Err(e) => Err(e),
        },
        StageKind::Canonicalize => match canonicalize::Args::from_tokens(tokens, 1) {
            Ok(a) => Ok(SinkSubcommand::Canonicalize(a)),
            Err(e) => Err(e),
        },
        StageKind::Dispatch => match dispatch::Args::from_tokens(tokens, 1) {
            Ok(a) => Ok(SinkSubcommand::Dispatch(a)),
            Err(e) => Err(e),
        },
        StageKind::Filter => match filter::Args::from_tokens(tokens, 1) {
            Ok(a) => Ok(SinkSubcommand::Filter(a)),
            Err(e) => Err(e),
        },
        StageKind::Merge => match merge::Args::from_tokens(tokens, 1) {
            Ok(a) => Ok(SinkSubcommand::Merge(a)),
            Err(e) => Err(e),
        },
        StageKind::Query => match query::Args::from_tokens(tokens, 1) {
            Ok(a) => Ok(SinkSubcommand::Query(a)),
            Err(e) => Err(e),
        },
        StageKind::Relativize => match relativize::Args::from_tokens(tokens, 1) {
            Ok(a) => Ok(SinkSubcommand::Relativize(a)),
            Err(e) => Err(e),
        },
        StageKind::Serialize => match serialize::Args::from_tokens(tokens, 1) {
            Ok(a) => Ok(SinkSubcommand::Serialize(a)),
            Err(e) => Err(e),
        },
        StageKind::Null => match null::Args::from_tokens(tokens, 1) {
            Ok(a) => Ok(SinkSubcommand::Null(a)),
            Err(e) => Err(e),
        },
    }
}

} // verus!
