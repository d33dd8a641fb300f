//! The rest of a command line behind a pipe marker.
//!
//! A stage may be followed by a pipe marker and a further stage, which may be
//! followed by another, without end. The stage that is parsed holds what
//! follows its pipe marker as tokens, unparsed. Only when it needs its
//! successor are those tokens parsed, into one stage, which in turn holds the
//! tokens behind its own pipe marker.

use vstd::prelude::*;
use crate::cli::{ArgError, ArgErrorKind, ArgFailure};
use crate::stage::{SinkSubcommand, StageView, parse_stage, stage_of};
use crate::text::texts;

verus! {

/// The tokens behind a pipe marker.
#[derive(Debug, PartialEq, Eq)]
pub struct PipeArgs {
    pub args: Vec<String>,
}

/// What may follow the arguments of a stage: a pipe to another stage.
#[derive(Debug, PartialEq, Eq)]
pub enum PipeSubcommand {
    /// Pipe the quads to another stage.
    Pipe(PipeArgs),
}

impl View for PipeSubcommand {
    type V = Seq<Seq<char>>;

    /// The tokens of the next stage.
    open spec fn view(&self) -> Seq<Seq<char>> {
        match self {
            PipeSubcommand::Pipe(pipe) => texts(pipe.args@),
        }
    }
}

/// The tokens of the next stage, if there is one.
pub open spec fn pipeline_view(p: Option<PipeSubcommand>) -> Option<Seq<Seq<char>>> {
    match p {
        Some(p) => Some(p@),
        None => None,
    }
}

impl Clone for PipeSubcommand {
    fn clone(&self) -> (r: Self)
        ensures
            r@ == self@,
    {
        match self {
            PipeSubcommand::Pipe(pipe) => {
                let args = crate::text::tokens_from(&pipe.args, 0);
                assert(texts(pipe.args@).skip(0) =~= texts(pipe.args@));
                PipeSubcommand::Pipe(PipeArgs { args })
            },
        }
    }
}

impl PipeSubcommand {
    /// The pipe to the stage that `args` name and configure.
    pub fn new(args: Vec<String>) -> (r: Self)
        ensures
            r@ == texts(args@),
    {
        PipeSubcommand::Pipe(PipeArgs { args })
    }
}


/// A stage as it was parsed from the tokens behind a pipe marker.
#[derive(Debug, PartialEq, Eq)]
pub struct PipeCommand {
    pub subcommand: SinkSubcommand,
}

impl PipeCommand {
    /// Parses one stage from its name and arguments.
    pub fn parse_from(tokens: &Vec<String>) -> (r: Result<PipeCommand, ArgError>)
        ensures
            match r {
                Ok(c) => stage_of(texts(tokens@)) == Ok::<StageView, ArgFailure>(c.subcommand@),
                Err(e) => stage_of(texts(tokens@)) == Err::<StageView, ArgFailure>(e@),
            },
    {
        match parse_stage(tokens) {
            Ok(subcommand) => Ok(PipeCommand { subcommand }),
            Err(e) => Err(e),
        }
    }
}

/// The tokens behind a pipe marker are no stage with its arguments.
#[derive(Debug, PartialEq, Eq)]
pub struct PipeError {
    /// What is wrong.
    pub kind: ArgErrorKind,
    /// The index of the token at fault among the tokens behind the pipe
    /// marker; their number, where a token is missing.
    pub at: usize,
    /// The token at fault; empty where a token is missing.
    pub token: String,
}

/// The mathematical model of a [`PipeError`].
pub struct PipeFailure {
    pub kind: ArgErrorKind,
    pub at: int,
    pub token: Seq<char>,
}

impl View for PipeError {
    type V = PipeFailure;

    open spec fn view(&self) -> PipeFailure {
        PipeFailure { kind: self.kind, at: self.at as int, token: self.token@ }
    }
}

/// The failure of the piped stage for a failure of parsing `tokens`.
pub open spec fn pipe_failure(e: ArgFailure, tokens: Seq<Seq<char>>) -> PipeFailure {
    PipeFailure {
        kind: e.kind,
        at: e.at,
        token: if 0 <= e.at < tokens.len() {
            tokens[e.at]
        } else {
            Seq::empty()
        },
    }
}

/// What a kind of failure is called in a message.
pub open spec fn kind_text(kind: ArgErrorKind) -> Seq<char> {
    match kind {
        ArgErrorKind::MissingStage => "no sub-command follows the pipe marker"@,
        ArgErrorKind::UnknownStage => "unrecognized sub-command"@,
        ArgErrorKind::UnknownOption => "unexpected option"@,
        ArgErrorKind::MissingValue => "a value is required for option"@,
        ArgErrorKind::UnexpectedValue => "unexpected value for an option that takes none"@,
        ArgErrorKind::RepeatedOption => "option given more than once"@,
        ArgErrorKind::MissingArgument => "a required argument was not provided"@,
        ArgErrorKind::UnexpectedArgument => "unexpected argument"@,
        ArgErrorKind::InvalidValue => "invalid value"@,
    }
}

/// What is wrong with the tokens of a stage: the kind of failure and, where
/// a token is at fault, that token in quotes.
pub open spec fn arg_text(kind: ArgErrorKind, token: Seq<char>) -> Seq<char> {
    kind_text(kind) + if token.len() > 0 {
        " '"@ + token + "'"@
    } else {
        Seq::empty()
    }
}

/// The message of a failure: it attributes the failure to the piped
/// sub-command and says what is wrong.
pub open spec fn pipe_message(f: PipeFailure) -> Seq<char> {
    "error in piped sub-command: "@ + arg_text(f.kind, f.token)
}

/// What a kind of failure is called in a message.
pub fn kind_message(kind: ArgErrorKind) -> (r: &'static str)
    ensures
        r@ == kind_text(kind),
{
    match kind {
        ArgErrorKind::MissingStage => "no sub-command follows the pipe marker",
        ArgErrorKind::UnknownStage => "unrecognized sub-command",
        ArgErrorKind::UnknownOption => "unexpected option",
        ArgErrorKind::MissingValue => "a value is required for option",
        ArgErrorKind::UnexpectedValue => "unexpected value for an option that takes none",
        ArgErrorKind::RepeatedOption => "option given more than once",
        ArgErrorKind::MissingArgument => "a required argument was not provided",
        ArgErrorKind::UnexpectedArgument => "unexpected argument",
        ArgErrorKind::InvalidValue => "invalid value",
    }
}

/// What is wrong with the tokens of a stage, for a message. `token` is the
/// token at fault, or empty where a token is missing.
pub fn arg_message(kind: ArgErrorKind, token: &str) -> (r: String)
    ensures
        r@ == arg_text(kind, token@),
{
    let mut m = String::from_str(kind_message(kind));
    if token.unicode_len() > 0 {
        m.append(" '");
        m.append(token);
        m.append("'");
        assert(m@ =~= arg_text(kind, token@));
    } else {
        assert(m@ =~= arg_text(kind, token@));
    }
    m
}

impl PipeError {
    /// The message of this error.
    pub fn to_string(&self) -> (r: String)
        ensures
            r@ == pipe_message(self@),
    {
        let m = String::from_str("error in piped sub-command: ").concat(
            arg_message(self.kind, self.token.as_str()).as_str(),
        );
        m
    }
}

impl PipeSubcommand {
    /// Parses the tokens behind the pipe marker into the next stage. That
    /// stage holds the tokens behind its own pipe marker unparsed, and fewer
    /// of them than were parsed here.
    pub fn parse(&self) -> (r: Result<SinkSubcommand, PipeError>)
        ensures
            match r {
                Ok(stage) => stage_of(self@) == Ok::<StageView, ArgFailure>(stage@),
                Err(e) => stage_of(self@) matches Err(f) && e@ == pipe_failure(f, self@),
            },
    {
        match self {
            PipeSubcommand::Pipe(pipe) => match PipeCommand::parse_from(&pipe.args) {
                Ok(command) => Ok(command.subcommand),
                Err(e) => {
                    let token = if e.at < pipe.args.len() {
                        pipe.args[e.at].clone()
                    } else {
                        String::new()
                    };
                    Err(PipeError { kind: e.kind, at: e.at, token })
                },
            },
        }
    }
}

} // verus!
