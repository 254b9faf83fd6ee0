//! The lines that the asynchronous logger writes.
use vstd::prelude::*;
use std::fmt::Write;
use vstd::string::StringExecFns;

verus! {

/// How serious a log message is.
#[derive(Clone, Copy, PartialEq, Eq, Structural, Debug, Hash)]
pub enum LogSeverity {
    Debug,
    Info,
    Warning,
    Error,
    Critical,
}

/// The name under which a severity is written.
pub open spec fn severity_name(severity: LogSeverity) -> Seq<char> {
    match severity {
        LogSeverity::Debug => "Debug"@,
        LogSeverity::Info => "Info"@,
        LogSeverity::Warning => "Warning"@,
        LogSeverity::Error => "Error"@,
        LogSeverity::Critical => "Critical"@,
    }
}

impl LogSeverity {
    /// The name under which the severity is written.
    pub fn name(&self) -> (r: &'static str)
        ensures
            r@ == severity_name(*self),
    {
        match self {
            LogSeverity::Debug => "Debug",
            LogSeverity::Info => "Info",
            LogSeverity::Warning => "Warning",
            LogSeverity::Error => "Error",
            LogSeverity::Critical => "Critical",
        }
    }
}

/// What chrono writes for the UTC time `nanos` nanoseconds after the Unix
/// epoch under the strftime-style `pattern`; nothing where the pattern does
/// not parse.
pub uninterp spec fn utc_timestamp_text(nanos: i64, pattern: Seq<char>) -> Option<Seq<char>>;

/// Relies on chrono's `DateTime::<Utc>::from_timestamp_nanos`, which maps
/// every `i64` to a time, and on its `format(pattern)`, whose display fails,
/// rather than panics, on a pattern that does not parse. The text depends on
/// `nanos` and `pattern` alone.
#[verifier::external_body]
fn format_utc_timestamp(nanos: i64, pattern: &str) -> (r: Option<String>)
    ensures
        match r {
            Some(text) => utc_timestamp_text(nanos, pattern@) == Some(text@),
            None => utc_timestamp_text(nanos, pattern@) is None,
        },
{
    let mut text = String::new();
    let time = chrono::DateTime::<chrono::Utc>::from_timestamp_nanos(nanos);
    match write!(text, "{}", time.format(pattern)) {
        Ok(()) => Some(text),
        Err(_) => None,
    }
}

/// The pattern of the log's timestamps: date, time to the nanosecond, zone.
pub const LOG_TIME_PATTERN: &'static str = "%Y-%m-%d %H:%M:%S%.9f %Z";

/// One line of the log: the timestamp in brackets, the severity, a colon,
/// the message, and a newline.
pub open spec fn log_line(timestamp: Seq<char>, severity: LogSeverity, message: Seq<char>) -> Seq<
    char,
> {
    "["@ + timestamp + "] "@ + severity_name(severity) + ": "@ + message + "\n"@
}

/// Writes the log line of a message whose timestamp reads `timestamp`.
pub fn compose_log_line(timestamp: &str, severity: LogSeverity, message: &str) -> (r: String)
    ensures
        r@ == log_line(timestamp@, severity, message@),
{
    let mut line = String::from_str("[");
    line.append(timestamp);
    line.append("] ");
    line.append(severity.name());
    line.append(": ");
    line.append(message);
    line.append("\n");
    line
}

/// Writes the log line of a message sent `nanos` nanoseconds after the Unix
/// epoch, its timestamp in UTC under `LOG_TIME_PATTERN`; nothing where chrono
/// cannot write that timestamp.
pub fn format_log_entry(nanos: i64, severity: LogSeverity, message: &str) -> (r: Option<String>)
    ensures
        match utc_timestamp_text(nanos, LOG_TIME_PATTERN@) {
            Some(timestamp) => r matches Some(line) && line@ == log_line(timestamp, severity, message@),
            None => r is None,
        },
{
    match format_utc_timestamp(nanos, LOG_TIME_PATTERN) {
        Some(timestamp) => Some(compose_log_line(timestamp.as_str(), severity, message)),
        None => None,
    }
}

} // verus!
