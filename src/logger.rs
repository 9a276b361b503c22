//! Log levels and the decisions of the logger: which messages pass a level,
//! and how a line is laid out. Writing the line is the caller's.
use vstd::prelude::*;
use crate::text::{concat5, same_text};

verus! {

/// How much is logged, from nothing to everything.
#[derive(Debug, Clone, Copy, PartialEq, Eq, PartialOrd, Ord, Hash, Structural)]
pub enum LogLevel {
    Off,
    Error,
    Warn,
    Info,
    Debug,
}

/// The position of a level, from `Off` (0) to `Debug` (4).
pub open spec fn rank(l: LogLevel) -> nat {
    match l {
        LogLevel::Off => 0,
        LogLevel::Error => 1,
        LogLevel::Warn => 2,
        LogLevel::Info => 3,
        LogLevel::Debug => 4,
    }
}

/// The level a lower-case name stands for; an unknown name means `Info`.
pub open spec fn level_named(s: Seq<char>) -> LogLevel {
    if s == "off"@ || s == "none"@ {
        LogLevel::Off
    } else if s == "error"@ {
        LogLevel::Error
    } else if s == "warn"@ || s == "warning"@ {
        LogLevel::Warn
    } else if s == "info"@ {
        LogLevel::Info
    } else if s == "debug"@ {
        LogLevel::Debug
    } else {
        LogLevel::Info
    }
}

/// The lower-case form of `s`, as `str::to_lowercase` makes it.
pub uninterp spec fn lowercase_of(s: Seq<char>) -> Seq<char>;

/// Relies on `str::to_lowercase`: the result depends on the text alone.
#[verifier::external_body]
pub(crate) fn to_lowercase(s: &str) -> (r: String)
    ensures
        r@ == lowercase_of(s@),
{
    s.to_lowercase()
}

impl LogLevel {
    /// The level named by `s`, in any case.
    pub fn from_str(s: &str) -> (r: LogLevel)
        ensures
            r == level_named(lowercase_of(s@)),
    {
        let lower = to_lowercase(s);
        Self::from_lowercase(lower.as_str())
    }

    /// The level named by the lower-case `s`.
    pub fn from_lowercase(s: &str) -> (r: LogLevel)
        ensures
            r == level_named(s@),
    {
        if same_text(s, "off") || same_text(s, "none") {
            LogLevel::Off
        } else if same_text(s, "error") {
            LogLevel::Error
        } else if same_text(s, "warn") || same_text(s, "warning") {
            LogLevel::Warn
        } else if same_text(s, "info") {
            LogLevel::Info
        } else if same_text(s, "debug") {
            LogLevel::Debug
        } else {
            LogLevel::Info
        }
    }

    /// The position of this level.
    pub fn rank(&self) -> (r: u8)
        ensures
            r as nat == rank(*self),
    {
        match self {
            LogLevel::Off => 0,
            LogLevel::Error => 1,
            LogLevel::Warn => 2,
            LogLevel::Info => 3,
            LogLevel::Debug => 4,
        }
    }
}

/// The label of a message level; `Off` has none.
pub open spec fn level_label(l: LogLevel) -> Option<Seq<char>> {
    match l {
        LogLevel::Off => None,
        LogLevel::Error => Some("ERROR"@),
        LogLevel::Warn => Some("WARN"@),
        LogLevel::Info => Some("INFO"@),
        LogLevel::Debug => Some("DEBUG"@),
    }
}

/// The logger's settings: its level and, when set, the file it appends to.
#[derive(Debug, Clone)]
pub struct Logger {
    pub level: LogLevel,
    pub log_file: Option<String>,
}

impl Logger {
    /// A logger with the given level and file.
    pub fn new(level: LogLevel, log_file: Option<String>) -> (r: Logger)
        ensures
            r.level == level,
            r.log_file == log_file,
    {
        Logger { level, log_file }
    }

    /// The line written for `message` at `level`, stamped with `timestamp`;
    /// `None` when the level is above the logger's or is `Off`.
    pub fn line(&self, level: LogLevel, timestamp: &str, message: &str) -> (r: Option<String>)
        ensures
            match r {
                None => rank(level) > rank(self.level) || level == LogLevel::Off,
                Some(t) => rank(level) <= rank(self.level) && (level_label(level) matches Some(
                    l,
                ) && t@ == "["@ + timestamp@ + "] "@ + l + " - "@ + message@ + "\n"@),
            },
    {
        if level.rank() > self.level.rank() {
            return None;
        }
        let label = match level {
            LogLevel::Off => {
                return None;
            },
            LogLevel::Error => "ERROR",
            LogLevel::Warn => "WARN",
            LogLevel::Info => "INFO",
            LogLevel::Debug => "DEBUG",
        };
        let mut t = concat5("[", timestamp, "] ", label, " - ");
        t.append(message);
        t.append("\n");
        Some(t)
    }

    /// Whether a line at `level` also goes to standard error: errors always,
    /// debug lines when the logger itself is at debug level.
    pub fn echoes(&self, level: LogLevel) -> (r: bool)
        ensures
            r == (level == LogLevel::Error || (level == LogLevel::Debug && self.level
                == LogLevel::Debug)),
    {
        level == LogLevel::Error || (level == LogLevel::Debug && self.level == LogLevel::Debug)
    }
}

} // verus!
