//! How much of the log is shown.

use vstd::prelude::*;

verus! {

/// The level of a log message.
#[derive(Clone, Copy, Debug, PartialEq, Eq, Structural)]
pub enum Level {
    Error,
    Warn,
    Info,
    Debug,
    Trace,
}

/// The levels of the log that are shown.
#[derive(Clone, Copy, Debug, PartialEq, Eq, Structural)]
pub enum LevelFilter {
    Off,
    Error,
    Warn,
    Info,
    Debug,
    Trace,
}

/// A message for the log.
#[derive(Debug, PartialEq, Eq)]
pub struct Log {
    pub level: Level,
    pub message: String,
}

/// The mathematical model of a [`Log`].
pub struct LogView {
    pub level: Level,
    pub message: Seq<char>,
}

impl View for Log {
    type V = LogView;

    open spec fn view(&self) -> LogView {
        LogView { level: self.level, message: self.message@ }
    }
}

/// The views of the messages of a sequence.
pub open spec fn logs_view(logs: Seq<Log>) -> Seq<LogView> {
    Seq::new(logs.len(), |i: int| logs[i]@)
}

/// How often `-v` and `-q` were given, and the level that is shown when
/// neither was.
#[derive(Clone, Copy, Debug, PartialEq, Eq, Structural)]
pub struct Verbosity {
    pub verbose: u8,
    pub quiet: u8,
    pub default_level: Option<Level>,
}

/// The number of a level: -1 for none, 0 for errors, up to 4 for traces.
pub open spec fn level_number(level: Option<Level>) -> int {
    match level {
        None => -1,
        Some(Level::Error) => 0,
        Some(Level::Warn) => 1,
        Some(Level::Info) => 2,
        Some(Level::Debug) => 3,
        Some(Level::Trace) => 4,
    }
}

/// The number of the level that is shown: each `-v` raises it by one, each
/// `-q` lowers it by one.
pub open spec fn verbosity_of(v: Verbosity) -> int {
    level_number(v.default_level) + v.verbose - v.quiet
}

/// The levels that are shown for a number: none below 0, all from 4 on.
pub open spec fn filter_of(n: int) -> LevelFilter {
    if n < 0 {
        LevelFilter::Off
    } else if n == 0 {
        LevelFilter::Error
    } else if n == 1 {
        LevelFilter::Warn
    } else if n == 2 {
        LevelFilter::Info
    } else if n == 3 {
        LevelFilter::Debug
    } else {
        LevelFilter::Trace
    }
}

/// The number of a level.
pub fn level_value(level: Option<Level>) -> (r: i16)
    ensures
        r == level_number(level),
{
    match level {
        None => -1,
        Some(Level::Error) => 0,
        Some(Level::Warn) => 1,
        Some(Level::Info) => 2,
        Some(Level::Debug) => 3,
        Some(Level::Trace) => 4,
    }
}

impl Verbosity {
    /// The number of the level that is shown.
    pub fn verbosity(&self) -> (r: i16)
        ensures
            r == verbosity_of(*self),
    {
        let v: i16 = self.verbose as i16;
        let q: i16 = self.quiet as i16;
        level_value(self.default_level) + v - q
    }

    /// The levels of the log that are shown.
    pub fn log_level_filter(&self) -> (r: LevelFilter)
        ensures
            r == filter_of(verbosity_of(*self)),
    {
        let n = self.verbosity();
        if n < 0 {
            LevelFilter::Off
        } else if n == 0 {
            LevelFilter::Error
        } else if n == 1 {
            LevelFilter::Warn
        } else if n == 2 {
            LevelFilter::Info
        } else if n == 3 {
            LevelFilter::Debug
        } else {
            LevelFilter::Trace
        }
    }

    /// Whether a message of the given level is shown.
    pub fn shows(&self, level: Level) -> (r: bool)
        ensures
            r == (level_number(Some(level)) <= verbosity_of(*self)),
    {
        level_value(Some(level)) <= self.verbosity()
    }
}

/// More `-v` never show less, and more `-q` never show more.
pub proof fn lemma_verbosity_monotone(a: Verbosity, b: Verbosity, level: Level)
    requires
        a.default_level == b.default_level,
        a.verbose <= b.verbose,
        a.quiet >= b.quiet,
        level_number(Some(level)) <= verbosity_of(a),
    ensures
        level_number(Some(level)) <= verbosity_of(b),
{
}

} // verus!
