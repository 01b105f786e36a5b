//! The process-wide log sink: a level threshold chosen once at startup and
//! a fixed rendering of each record with its level, origin tag and, when
//! known, source line.

use vstd::prelude::*;
use crate::text::dec_seq;
use crate::text::u64_to_string;

verus! {

/// Severity of one log record, most severe first.
#[derive(Clone, Copy, PartialEq, Eq, Structural, Debug)]
pub enum Level {
    Error,
    Warn,
    Info,
    Debug,
    Trace,
}

/// The active threshold: records at or below it are written.
#[derive(Clone, Copy, PartialEq, Eq, Structural, Debug)]
pub enum LevelFilter {
    Off,
    Error,
    Warn,
    Info,
    Debug,
    Trace,
}

pub open spec fn level_index(l: Level) -> int {
    match l {
        Level::Error => 1,
        Level::Warn => 2,
        Level::Info => 3,
        Level::Debug => 4,
        Level::Trace => 5,
    }
}

pub open spec fn filter_index(f: LevelFilter) -> int {
    match f {
        LevelFilter::Off => 0,
        LevelFilter::Error => 1,
        LevelFilter::Warn => 2,
        LevelFilter::Info => 3,
        LevelFilter::Debug => 4,
        LevelFilter::Trace => 5,
    }
}

/// A record passes the filter exactly when its level is at or below the
/// active threshold.
pub open spec fn spec_enabled(l: Level, max: LevelFilter) -> bool {
    level_index(l) <= filter_index(max)
}

pub open spec fn level_name(l: Level) -> Seq<char> {
    match l {
        Level::Error => "ERROR"@,
        Level::Warn => "WARN"@,
        Level::Info => "INFO"@,
        Level::Debug => "DEBUG"@,
        Level::Trace => "TRACE"@,
    }
}

/// The origin tag, extended with `:line` when the source line is known.
pub open spec fn target_render(target: Seq<char>, line: Option<u32>) -> Seq<char> {
    match line {
        Some(n) => target + ":"@ + dec_seq(n as nat),
        None => target,
    }
}

/// The fixed line layout of every record written to standard output.
pub open spec fn record_render(
    level: Level,
    target: Seq<char>,
    line: Option<u32>,
    args: Seq<char>,
) -> Seq<char> {
    level_name(level) + " RS - "@ + target_render(target, line) + " - "@ + args
}

/// One log record handed to the sink by the logging facade.
pub struct Record {
    pub level: Level,
    pub target: String,
    pub line: Option<u32>,
    pub args: String,
}

/// The sink itself, installed exactly once at process start with the
/// threshold it will keep for the whole invocation.
pub struct Logger {
    pub max_level: LevelFilter,
}

/// The threshold chosen at startup: verbose when the debug toggle is set,
/// quiet otherwise.
pub fn max_level_for(log_debug: bool) -> (f: LevelFilter)
    ensures
        f == (if log_debug {
            LevelFilter::Debug
        } else {
            LevelFilter::Warn
        }),
{
    if log_debug {
        LevelFilter::Debug
    } else {
        LevelFilter::Warn
    }
}

fn level_index_exec(l: &Level) -> (i: u32)
    ensures
        i == level_index(*l),
{
    match l {
        Level::Error => 1,
        Level::Warn => 2,
        Level::Info => 3,
        Level::Debug => 4,
        Level::Trace => 5,
    }
}

fn filter_index_exec(f: &LevelFilter) -> (i: u32)
    ensures
        i == filter_index(*f),
{
    match f {
        LevelFilter::Off => 0,
        LevelFilter::Error => 1,
        LevelFilter::Warn => 2,
        LevelFilter::Info => 3,
        LevelFilter::Debug => 4,
        LevelFilter::Trace => 5,
    }
}

fn level_name_exec(l: &Level) -> (r: &'static str)
    ensures
        r@ == level_name(*l),
{
    match l {
        Level::Error => "ERROR",
        Level::Warn => "WARN",
        Level::Info => "INFO",
        Level::Debug => "DEBUG",
        Level::Trace => "TRACE",
    }
}

impl Logger {
    /// Whether a record at `level` passes the active threshold.
    pub fn enabled(&self, level: &Level) -> (b: bool)
        ensures
            b == spec_enabled(*level, self.max_level),
    {
        level_index_exec(level) <= filter_index_exec(&self.max_level)
    }

    /// Renders a record as the one line written to standard output, or
    /// nothing when the record does not pass the threshold.
    pub fn log(&self, record: &Record) -> (out: Option<String>)
        ensures
            spec_enabled(record.level, self.max_level) ==> (out matches Some(s) && s@
                == record_render(record.level, record.target@, record.line, record.args@)),
            !spec_enabled(record.level, self.max_level) ==> out is None,
    {
        if !self.enabled(&record.level) {
            return None;
        }
        let mut s = String::from_str(level_name_exec(&record.level));
        s.append(" RS - ");
        s.append(record.target.as_str());
        match record.line {
            Some(n) => {
                s.append(":");
                s.append(u64_to_string(n as u64).as_str());
            },
            None => {},
        }
        s.append(" - ");
        s.append(record.args.as_str());
        Some(s)
    }

    /// Flushing is a no-op: every record is written eagerly.
    pub fn flush(&self) {
    }
}

} // verus!
