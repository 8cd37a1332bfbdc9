//! Writing finished log lines to the standard output streams, routed by
//! severity.

use std::io::Write;
use vstd::prelude::*;

use crate::ansi::bold_span;
use crate::ansi::embolden;
use crate::level::Level;
use crate::level::is_high_severity;

verus! {

/// The final form a line takes before it is written: high-severity lines
/// are emphasized in bold, all others pass unchanged.
pub open spec fn rendered_line(msg: Seq<char>, level: Level) -> Seq<char> {
    if is_high_severity(level) {
        bold_span(msg)
    } else {
        msg
    }
}

/// Whether a line goes to the error stream: only high-severity lines,
/// and only when splitting is switched on.
pub open spec fn routed_to_stderr(use_stderr: bool, level: Level) -> bool {
    use_stderr && is_high_severity(level)
}

/// Relies on `std::io::Stdout::write_fmt` (through `writeln`): the line
/// goes to standard output; a failed write is dropped silently.
#[verifier::external_body]
fn write_stdout_line(line: &str) {
    let _ = writeln!(std::io::stdout().lock(), "{}", line);
}

/// Relies on `std::io::Stderr::write_fmt` (through `writeln`): the line
/// goes to standard error; a failed write is dropped silently.
#[verifier::external_body]
fn write_stderr_line(line: &str) {
    let _ = writeln!(std::io::stderr().lock(), "{}", line);
}

/// Write logs to stdout/stderr, routed by severity.
pub struct LogWriter {
    /// switch for enabling log splitting to `stderr`
    ///
    /// - `true`: log `Trace` - `Info` levels to `stdout` and `Warn` -
    ///   `Error` levels to `stderr`
    ///
    /// - `false`: log all levels to `stdout`
    pub use_stderr: bool,
}

impl LogWriter {
    /// Create a new writer.
    pub fn new(use_stderr: bool) -> (writer: LogWriter)
        ensures
            writer.use_stderr == use_stderr,
    {
        LogWriter { use_stderr }
    }

    /// The line as this writer will emit it: `Warn` and `Error` lines
    /// are emphasized in bold, the rest stay as they are.
    pub fn render_line(&self, msg: String, level: Level) -> (line: String)
        ensures
            line@ == rendered_line(msg@, level),
    {
        match level {
            Level::Warn | Level::Error => embolden(msg.as_str()),
            _ => msg,
        }
    }

    /// Whether this writer sends a line at `level` to the error stream.
    pub fn route_to_stderr(&self, level: Level) -> (to_stderr: bool)
        ensures
            to_stderr == routed_to_stderr(self.use_stderr, level),
    {
        match level {
            Level::Warn | Level::Error => self.use_stderr,
            _ => false,
        }
    }

    /// Write a log message to its output destination: the emphasized
    /// form of the line goes to stderr for high-severity levels when
    /// splitting is on, and to stdout otherwise. Write failures are
    /// silently ignored; this never panics.
    pub fn write(&self, msg: String, level: Level) {
        let line = self.render_line(msg, level);
        if self.route_to_stderr(level) {
            write_stderr_line(line.as_str());
        } else {
            write_stdout_line(line.as_str());
        }
    }
}

} // verus!
