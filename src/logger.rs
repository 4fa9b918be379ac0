use vstd::prelude::*;
use crate::text::{ends_with_text, has_suffix};

verus! {

/// The severity of a log record, most severe first.
#[derive(Debug, Clone, Copy, PartialEq, Eq, Structural)]
pub enum LogLevel {
    Error,
    Warn,
    Info,
    Debug,
    Trace,
}

/// The severities the host runtime's logger knows.
#[derive(Debug, Clone, Copy, PartialEq, Eq, Structural)]
pub enum NifLevel {
    Error,
    Warn,
    Info,
    Debug,
}

/// The most verbose severity the host runtime wants forwarded.
#[derive(Debug, Clone, Copy, PartialEq, Eq, Structural)]
pub enum NifLevelFilter {
    Off,
    Error,
    Warn,
    Info,
    Debug,
    Trace,
}

/// A severity's rank: 1 for errors up to 5 for traces.
pub open spec fn level_rank(l: LogLevel) -> nat {
    match l {
        LogLevel::Error => 1,
        LogLevel::Warn => 2,
        LogLevel::Info => 3,
        LogLevel::Debug => 4,
        LogLevel::Trace => 5,
    }
}

/// A filter's rank: 0 lets nothing through, 5 everything.
pub open spec fn filter_rank(f: NifLevelFilter) -> nat {
    match f {
        NifLevelFilter::Off => 0,
        NifLevelFilter::Error => 1,
        NifLevelFilter::Warn => 2,
        NifLevelFilter::Info => 3,
        NifLevelFilter::Debug => 4,
        NifLevelFilter::Trace => 5,
    }
}

/// The host severity a record is reported with; traces go as debug.
pub open spec fn nif_level_of(l: LogLevel) -> NifLevel {
    match l {
        LogLevel::Error => NifLevel::Error,
        LogLevel::Warn => NifLevel::Warn,
        LogLevel::Info => NifLevel::Info,
        LogLevel::Debug | LogLevel::Trace => NifLevel::Debug,
    }
}

/// The text of the one error record that is dropped: the native library
/// reports it when its channel closes, and nothing can be done about it.
pub open spec fn closed_channel_text() -> Seq<char> {
    "Channel already closed"@
}

impl NifLevel {
    pub fn from_level(l: LogLevel) -> (r: NifLevel)
        ensures
            r == nif_level_of(l),
    {
        match l {
            LogLevel::Error => NifLevel::Error,
            LogLevel::Warn => NifLevel::Warn,
            LogLevel::Info => NifLevel::Info,
            LogLevel::Debug | LogLevel::Trace => NifLevel::Debug,
        }
    }
}

impl NifLevelFilter {
    /// The filter's rank, as the logger stores it.
    pub fn rank(self) -> (r: usize)
        ensures
            r == filter_rank(self),
    {
        match self {
            NifLevelFilter::Off => 0,
            NifLevelFilter::Error => 1,
            NifLevelFilter::Warn => 2,
            NifLevelFilter::Info => 3,
            NifLevelFilter::Debug => 4,
            NifLevelFilter::Trace => 5,
        }
    }
}

/// Whether a record whose text is `body` is dropped rather than forwarded.
pub fn ignore_log(body: &str) -> (r: bool)
    ensures
        r == has_suffix(body@, closed_channel_text()),
{
    ends_with_text(body, "Channel already closed")
}

/// Whether the logger reports records of severity `l` while its stored
/// maximum rank is `max_rank`: only severities ranked strictly below it.
pub fn log_enabled(l: LogLevel, max_rank: usize) -> (r: bool)
    ensures
        r == (level_rank(l) < max_rank),
{
    let rank: usize = match l {
        LogLevel::Error => 1,
        LogLevel::Warn => 2,
        LogLevel::Info => 3,
        LogLevel::Debug => 4,
        LogLevel::Trace => 5,
    };
    rank < max_rank
}

/// A log record as it is forwarded to the host runtime's logger process.
#[derive(Debug, PartialEq)]
pub struct LoggerProxyRecord {
    pub level: NifLevel,
    pub target: String,
    pub body: String,
    pub module: Option<String>,
    pub file: Option<String>,
    pub line: Option<u32>,
}

/// The record to forward for a log event, or `None` when there is no
/// logger process to forward to or the record is the dropped one.
pub fn proxy_record(
    has_process: bool,
    level: LogLevel,
    target: String,
    body: String,
    module: Option<String>,
    file: Option<String>,
    line: Option<u32>,
) -> (r: Option<LoggerProxyRecord>)
    ensures
        r is Some <==> has_process && !has_suffix(body@, closed_channel_text()),
        r is Some ==> r->Some_0 == (LoggerProxyRecord {
            level: nif_level_of(level),
            target,
            body,
            module,
            file,
            line,
        }),
{
    if ignore_log(body.as_str()) || !has_process {
        return None;
    }
    Some(
        LoggerProxyRecord {
            level: NifLevel::from_level(level),
            target,
            body,
            module,
            file,
            line,
        },
    )
}

} // verus!
