use std::fmt::Write;
use vstd::prelude::*;
use vstd::string::StringExecFns;

use crate::errors::Error;
use crate::format::color_wrap;

verus! {

/// The severity of one log record.
#[derive(Debug, Clone, Copy, PartialEq, Eq, Structural)]
pub enum LogLevel {
    Error,
    Warn,
    Info,
    Debug,
    Trace,
}

/// The verbosity cut-off a logger is configured with.
#[derive(Debug, Clone, Copy, PartialEq, Eq, Structural)]
pub enum LevelFilter {
    Off,
    Error,
    Warn,
    Info,
    Debug,
    Trace,
}

pub open spec fn level_rank(l: LogLevel) -> int {
    match l {
        LogLevel::Error => 1,
        LogLevel::Warn => 2,
        LogLevel::Info => 3,
        LogLevel::Debug => 4,
        LogLevel::Trace => 5,
    }
}

pub open spec fn filter_rank(f: LevelFilter) -> int {
    match f {
        LevelFilter::Off => 0,
        LevelFilter::Error => 1,
        LevelFilter::Warn => 2,
        LevelFilter::Info => 3,
        LevelFilter::Debug => 4,
        LevelFilter::Trace => 5,
    }
}

/// Whether a filter lets a record of the given level through.
pub open spec fn filter_admits(f: LevelFilter, l: LogLevel) -> bool {
    filter_rank(f) >= level_rank(l)
}

fn filter_rank_exec(f: &LevelFilter) -> (r: u8)
    ensures
        r == filter_rank(*f),
{
    match f {
        LevelFilter::Off => 0,
        LevelFilter::Error => 1,
        LevelFilter::Warn => 2,
        LevelFilter::Info => 3,
        LevelFilter::Debug => 4,
        LevelFilter::Trace => 5,
    }
}

fn level_rank_exec(l: &LogLevel) -> (r: u8)
    ensures
        r == level_rank(*l),
{
    match l {
        LogLevel::Error => 1,
        LogLevel::Warn => 2,
        LogLevel::Info => 3,
        LogLevel::Debug => 4,
        LogLevel::Trace => 5,
    }
}

/// One record handed to the logger: its severity, the component that wrote
/// it, and the message text.
#[derive(Debug, Clone, PartialEq, Eq)]
pub struct LogRecord {
    pub level: LogLevel,
    pub target: String,
    pub message: String,
}

/// How log lines are rendered: whether logging is on at all, the strftime
/// pattern for the timestamp, and whether ANSI colors are used.
#[derive(Debug, Clone, PartialEq, Eq)]
pub struct Config {
    pub enabled: bool,
    pub datetime_format: String,
    pub use_ansi: bool,
}

impl Config {
    /// The default rendering: enabled, date and time to the second, colors
    /// on.
    pub fn new() -> (r: Self)
        ensures
            r.enabled,
            r.datetime_format@ == "%Y-%m-%d %H:%M:%S"@,
            r.use_ansi,
    {
        Config {
            enabled: true,
            datetime_format: String::from_str("%Y-%m-%d %H:%M:%S"),
            use_ansi: true,
        }
    }
}

/// Renders one log record as a line of text.
pub trait LogFormatter {
    fn format(&self, record: &LogRecord) -> String;
}

/// Receives rendered log records. Implementations decide where they go.
pub trait LogSink {
    fn write_log(&self, record: &LogRecord) -> Result<(), Error>;

    fn flush(&self);
}

/// A sink that discards everything.
#[derive(Debug, Clone, Copy, PartialEq, Eq, Structural)]
pub struct NullSink {}

impl NullSink {
    pub fn new() -> (r: Self)
        ensures
            r == (NullSink {  }),
    {
        NullSink {  }
    }
}

impl LogSink for NullSink {
    fn write_log(&self, record: &LogRecord) -> Result<(), Error> {
        Ok(())
    }

    fn flush(&self) {
    }
}

/// Relies on `chrono::Local::now` and its `format`: the current local time
/// rendered under the given strftime pattern. The value depends on the wall
/// clock, the machine's zone and the pattern's validity, so nothing is
/// promised of it; an unrenderable pattern yields nothing rather than a
/// panic.
#[verifier::external_body]
fn local_now_formatted(fmt: &str) -> (r: Option<String>) {
    let now = chrono::Local::now();
    let mut s = String::new();
    match write!(s, "{}", now.format(fmt)) {
        Ok(()) => Some(s),
        Err(_) => None,
    }
}

/// The label of a level as the default formatter prints it, colorized when
/// ANSI is on.
pub open spec fn level_label(use_ansi: bool, level: LogLevel) -> Seq<char> {
    if use_ansi {
        match level {
            LogLevel::Error => "\u{1b}[0;31mERR\u{1b}[0m"@,
            LogLevel::Warn => "\u{1b}[0;33mWRN\u{1b}[0m"@,
            LogLevel::Info => "\u{1b}[0;32mINF\u{1b}[0m"@,
            LogLevel::Debug => "\u{1b}[0;34mDEB\u{1b}[0m"@,
            LogLevel::Trace => "\u{1b}[0;37mTRC\u{1b}[0m"@,
        }
    } else {
        match level {
            LogLevel::Error => "ERR"@,
            LogLevel::Warn => "WRN"@,
            LogLevel::Info => "INF"@,
            LogLevel::Debug => "DEB"@,
            LogLevel::Trace => "TRC"@,
        }
    }
}

/// The stock formatter: a colorized bracketed timestamp, the level's
/// three-letter label, and the highlighted message.
#[derive(Debug, Clone, PartialEq, Eq)]
pub struct DefaultFormatter {
    pub config: Config,
}

impl DefaultFormatter {
    pub fn new(config: Config) -> (r: Self)
        ensures
            r == (DefaultFormatter { config }),
    {
        DefaultFormatter { config }
    }

    /// The current time in brackets, dimmed when ANSI is on. The time text
    /// itself comes from the clock and the configured pattern, so only the
    /// shape is pinned.
    fn timestamp(&self) -> (r: String)
        ensures
            exists|t: Seq<char>|
                r@ == color_wrap(
                    "\u{1b}[0;90m"@,
                    seq!['['] + t + seq![']'],
                    self.config.use_ansi,
                ),
    {
        let time = match local_now_formatted(self.config.datetime_format.as_str()) {
            Some(t) => t,
            None => String::new(),
        };
        let mut out = String::new();
        if self.config.use_ansi {
            out.append("\u{1b}[0;90m");
            out.push('[');
            out.append(time.as_str());
            out.push(']');
            out.append("\u{1b}[0m");
        } else {
            out.push('[');
            out.append(time.as_str());
            out.push(']');
        }
        proof {
            assert(out@ =~= color_wrap(
                "\u{1b}[0;90m"@,
                seq!['['] + time@ + seq![']'],
                self.config.use_ansi,
            ));
        }
        out
    }

    /// The three-letter label of a level, colorized when ANSI is on.
    fn format_level(&self, level: &LogLevel) -> (r: &'static str)
        ensures
            r@ == level_label(self.config.use_ansi, *level),
    {
        if self.config.use_ansi {
            match level {
                LogLevel::Error => "\u{1b}[0;31mERR\u{1b}[0m",
                LogLevel::Warn => "\u{1b}[0;33mWRN\u{1b}[0m",
                LogLevel::Info => "\u{1b}[0;32mINF\u{1b}[0m",
                LogLevel::Debug => "\u{1b}[0;34mDEB\u{1b}[0m",
                LogLevel::Trace => "\u{1b}[0;37mTRC\u{1b}[0m",
            }
        } else {
            match level {
                LogLevel::Error => "ERR",
                LogLevel::Warn => "WRN",
                LogLevel::Info => "INF",
                LogLevel::Debug => "DEB",
                LogLevel::Trace => "TRC",
            }
        }
    }

    /// The sequence that ends a colorized span: empty when ANSI is off.
    fn reset(&self) -> (r: &'static str)
        ensures
            r@ == if self.config.use_ansi {
                "\u{1b}[0m"@
            } else {
                Seq::<char>::empty()
            },
    {
        if self.config.use_ansi {
            "\u{1b}[0m"
        } else {
            proof {
                reveal_strlit("");
                assert(""@ =~= Seq::<char>::empty());
            }
            ""
        }
    }

    /// The message, highlighted when ANSI is on.
    fn format_msg(&self, msg: &str) -> (r: String)
        ensures
            r@ == color_wrap("\u{1b}[0;1m"@, msg@, self.config.use_ansi),
    {
        let mut out = String::new();
        if self.config.use_ansi {
            out.append("\u{1b}[0;1m");
            out.append(msg);
            out.append("\u{1b}[0m");
        } else {
            out.append(msg);
        }
        proof {
            assert(out@ =~= color_wrap("\u{1b}[0;1m"@, msg@, self.config.use_ansi));
        }
        out
    }
}

impl LogFormatter for DefaultFormatter {
    fn format(&self, record: &LogRecord) -> String {
        let mut out = self.timestamp();
        out.append(" ");
        out.append(self.format_level(&record.level));
        out.append(": ");
        let msg = self.format_msg(record.message.as_str());
        out.append(msg.as_str());
        out
    }
}

/// The logger: a verbosity filter in front of a sink.
#[derive(Debug)]
pub struct Logger<S: LogSink> {
    pub filter: LevelFilter,
    pub sink: S,
    pub config: Config,
}

impl<S: LogSink> Logger<S> {
    pub fn new(filter: LevelFilter, sink: S, config: Config) -> (r: Self)
        ensures
            r.filter == filter,
            r.config == config,
    {
        Logger { filter, sink, config }
    }

    /// Whether a record of the given level is logged at all: logging must be
    /// enabled and the filter must admit the level.
    pub fn enabled(&self, level: &LogLevel) -> (r: bool)
        ensures
            r == (self.config.enabled && filter_admits(self.filter, *level)),
    {
        self.config.enabled && filter_rank_exec(&self.filter) >= level_rank_exec(level)
    }

    /// Hands the record to the sink when the filter admits it; a filtered
    /// record is dropped without an error.
    pub fn log(&self, record: &LogRecord) -> (r: Result<(), Error>)
        ensures
            !(self.config.enabled && filter_admits(self.filter, record.level)) ==> r == Ok::<
                (),
                Error,
            >(()),
    {
        if self.enabled(&record.level) {
            self.sink.write_log(record)
        } else {
            Ok(())
        }
    }

    pub fn flush(&self) {
        self.sink.flush()
    }
}

} // verus!
