//! Diagnostics: which messages pass the configured verbosity, and how a line
//! of output reads.
use vstd::prelude::*;

verus! {

/// The severity of a message, from the most to the least severe.
#[derive(Clone, Copy, Debug, PartialEq, Eq, Structural)]
pub enum Level {
    Error,
    Warn,
    Info,
    Debug,
    Trace,
}

/// A verbosity: the least severe level that is still shown, or nothing.
#[derive(Clone, Copy, Debug, PartialEq, Eq, Structural)]
pub enum LevelFilter {
    Off,
    Error,
    Warn,
    Info,
    Debug,
    Trace,
}

/// The rank of a severity; the most severe ranks lowest.
pub open spec fn level_rank(level: Level) -> int {
    match level {
        Level::Error => 1,
        Level::Warn => 2,
        Level::Info => 3,
        Level::Debug => 4,
        Level::Trace => 5,
    }
}

/// The rank of a verbosity: messages of a rank up to it are shown.
pub open spec fn filter_rank(filter: LevelFilter) -> int {
    match filter {
        LevelFilter::Off => 0,
        LevelFilter::Error => 1,
        LevelFilter::Warn => 2,
        LevelFilter::Info => 3,
        LevelFilter::Debug => 4,
        LevelFilter::Trace => 5,
    }
}

/// The one-letter tag of a severity.
pub open spec fn tag(level: Level) -> Seq<char> {
    match level {
        Level::Error => "E"@,
        Level::Warn => "W"@,
        Level::Info => "I"@,
        Level::Debug => "D"@,
        Level::Trace => "T"@,
    }
}

/// A line of output: `[tag] [target] message`.
pub open spec fn line_of(level: Level, target: Seq<char>, message: Seq<char>) -> Seq<char> {
    "["@ + tag(level) + "] ["@ + target + "] "@ + message
}

/// A logger that writes the messages at or above a verbosity.
#[derive(Clone, Copy, Debug)]
pub struct Logger {
    level: LevelFilter,
}

impl Logger {
    /// The verbosity the logger was made with.
    pub closed spec fn threshold(&self) -> LevelFilter {
        self.level
    }

    /// A logger that shows the messages that `level` lets through.
    pub fn new(level: LevelFilter) -> (r: Logger)
        ensures
            r.threshold() == level,
    {
        Logger { level: level }
    }

    /// The verbosity the logger was made with.
    pub fn level(&self) -> (r: LevelFilter)
        ensures
            r == self.threshold(),
    {
        self.level
    }

    /// Whether a message of severity `level` is shown.
    pub fn enabled(&self, level: Level) -> (r: bool)
        ensures
            r == (level_rank(level) <= filter_rank(self.threshold())),
    {
        let rank: u8 = match level {
            Level::Error => 1,
            Level::Warn => 2,
            Level::Info => 3,
            Level::Debug => 4,
            Level::Trace => 5,
        };
        let bound: u8 = match self.level {
            LevelFilter::Off => 0,
            LevelFilter::Error => 1,
            LevelFilter::Warn => 2,
            LevelFilter::Info => 3,
            LevelFilter::Debug => 4,
            LevelFilter::Trace => 5,
        };
        rank <= bound
    }

    /// The output line for a message of severity `level` from `target`.
    pub fn line(&self, level: Level, target: &str, message: &str) -> (r: String)
        ensures
            r@ == line_of(level, target@, message@),
    {
        let tag: &str = match level {
            Level::Error => "E",
            Level::Warn => "W",
            Level::Info => "I",
            Level::Debug => "D",
            Level::Trace => "T",
        };
        String::from_str("[").concat(tag).concat("] [").concat(target).concat("] ").concat(message)
    }
}

} // verus!
