//! Levelled log lines. The library decides whether a message is logged and
//! what the line reads; the caller writes it to standard error.
use vstd::prelude::*;

use crate::platform::now_text;

verus! {

/// Log levels, from the most to the least severe.
#[derive(Debug, Clone, Copy, PartialEq, Eq)]
pub enum LogLevel {
    Error,
    Warn,
    Info,
    Debug,
    Trace,
}

/// The severity rank of `l`: 0 for `Error` up to 4 for `Trace`.
pub open spec fn rank_of(l: LogLevel) -> u8 {
    match l {
        LogLevel::Error => 0,
        LogLevel::Warn => 1,
        LogLevel::Info => 2,
        LogLevel::Debug => 3,
        LogLevel::Trace => 4,
    }
}

/// The name that log lines show for `l`.
pub open spec fn name_of(l: LogLevel) -> Seq<char> {
    match l {
        LogLevel::Error => "ERROR"@,
        LogLevel::Warn => "WARN"@,
        LogLevel::Info => "INFO"@,
        LogLevel::Debug => "DEBUG"@,
        LogLevel::Trace => "TRACE"@,
    }
}

impl LogLevel {
    /// The severity rank: 0 for `Error` up to 4 for `Trace`.
    pub fn rank(&self) -> (r: u8)
        ensures
            r == rank_of(*self),
    {
        match self {
            LogLevel::Error => 0,
            LogLevel::Warn => 1,
            LogLevel::Info => 2,
            LogLevel::Debug => 3,
            LogLevel::Trace => 4,
        }
    }

    /// The name that log lines show.
    pub fn name(&self) -> (r: &'static str)
        ensures
            r@ == name_of(*self),
    {
        match self {
            LogLevel::Error => "ERROR",
            LogLevel::Warn => "WARN",
            LogLevel::Info => "INFO",
            LogLevel::Debug => "DEBUG",
            LogLevel::Trace => "TRACE",
        }
    }
}

/// The line for `message` at `level`: `[<time>] [<LEVEL>] <message>` when a
/// time is given, else `[<LEVEL>] <message>`.
pub open spec fn log_line(level: LogLevel, message: Seq<char>, time: Option<Seq<char>>) -> Seq<char> {
    match time {
        Some(t) => "["@ + t + "] ["@ + name_of(level) + "] "@ + message,
        None => "["@ + name_of(level) + "] "@ + message,
    }
}

/// Decides which messages are logged and how their lines read.
pub struct Logger {
    level: LogLevel,
    enable_timestamps: bool,
}

impl Logger {
    pub closed spec fn threshold(&self) -> LogLevel {
        self.level
    }

    pub closed spec fn stamps(&self) -> bool {
        self.enable_timestamps
    }

    /// The line this logger writes for `message` at `level` when the clock
    /// reads `time`.
    pub open spec fn line_for(&self, level: LogLevel, message: Seq<char>, time: Seq<char>) -> Seq<
        char,
    > {
        log_line(
            level,
            message,
            if self.stamps() {
                Some(time)
            } else {
                None
            },
        )
    }

    /// A logger of messages at `level` or more severe, with timestamps.
    pub fn new(level: LogLevel) -> (r: Logger)
        ensures
            r.threshold() == level,
            r.stamps(),
    {
        Logger { level, enable_timestamps: true }
    }

    /// The line for `message` at `level` with the time text `time`, or
    /// `None` when `level` is less severe than the logger's.
    pub fn format_line(&self, level: LogLevel, message: &str, time: &str) -> (r: Option<String>)
        ensures
            r is None <==> rank_of(level) > rank_of(self.threshold()),
            r matches Some(line) ==> line@ == log_line(
                level,
                message@,
                if self.stamps() {
                    Some(time@)
                } else {
                    None
                },
            ),
    {
        if level.rank() > self.level.rank() {
            return None;
        }
        let mut line = String::new();
        line.append("[");
        if self.enable_timestamps {
            line.append(time);
            line.append("] [");
        }
        line.append(level.name());
        line.append("] ");
        line.append(message);
        Some(line)
    }

    /// The line to write for `message` at `level`, stamped with the clock,
    /// or `None` when `level` is less severe than the logger's.
    pub fn log(&self, level: LogLevel, message: &str) -> (r: Option<String>)
        ensures
            r is None <==> rank_of(level) > rank_of(self.threshold()),
            r matches Some(line) ==> exists|time: Seq<char>|
                line@ == #[trigger] self.line_for(level, message@, time),
    {
        let time = if self.enable_timestamps {
            now_text()
        } else {
            String::new()
        };
        let r = self.format_line(level, message, time.as_str());
        if let Some(line) = &r {
            assert(line@ == self.line_for(level, message@, time@));
        }
        r
    }

    /// The line for an error message.
    pub fn error(&self, message: &str) -> (r: Option<String>)
        ensures
            r is Some,
            r matches Some(line) ==> exists|time: Seq<char>|
                line@ == #[trigger] self.line_for(LogLevel::Error, message@, time),
    {
        self.log(LogLevel::Error, message)
    }

    /// The line for a warning, if the logger takes warnings.
    pub fn warn(&self, message: &str) -> (r: Option<String>)
        ensures
            r is None <==> rank_of(self.threshold()) < 1,
            r matches Some(line) ==> exists|time: Seq<char>|
                line@ == #[trigger] self.line_for(LogLevel::Warn, message@, time),
    {
        self.log(LogLevel::Warn, message)
    }

    /// The line for an informational message, if the logger takes them.
    pub fn info(&self, message: &str) -> (r: Option<String>)
        ensures
            r is None <==> rank_of(self.threshold()) < 2,
            r matches Some(line) ==> exists|time: Seq<char>|
                line@ == #[trigger] self.line_for(LogLevel::Info, message@, time),
    {
        self.log(LogLevel::Info, message)
    }

    /// The line for a debugging message, if the logger takes them.
    pub fn debug(&self, message: &str) -> (r: Option<String>)
        ensures
            r is None <==> rank_of(self.threshold()) < 3,
            r matches Some(line) ==> exists|time: Seq<char>|
                line@ == #[trigger] self.line_for(LogLevel::Debug, message@, time),
    {
        self.log(LogLevel::Debug, message)
    }

    /// The line for a tracing message, if the logger takes them.
    pub fn trace(&self, message: &str) -> (r: Option<String>)
        ensures
            r is None <==> rank_of(self.threshold()) < 4,
            r matches Some(line) ==> exists|time: Seq<char>|
                line@ == #[trigger] self.line_for(LogLevel::Trace, message@, time),
    {
        self.log(LogLevel::Trace, message)
    }
}

impl Default for Logger {
    fn default() -> (r: Logger)
        ensures
            r.threshold() == LogLevel::Info,
            r.stamps(),
    {
        Logger::new(LogLevel::Info)
    }
}

} // verus!
