//! Diagnostic messages. Nothing in the protocol depends on them.

use vstd::prelude::*;
use vstd::string::*;

verus! {

/// The severity of a diagnostic message.
#[derive(Clone, Copy, PartialEq, Eq, Debug, Structural)]
pub enum LogLevel {
    Fatal,
    Error,
    Warning,
    Info,
    Trace,
}

impl LogLevel {
    /// The label of the level as it is printed.
    pub open spec fn spec_label(self) -> Seq<char> {
        match self {
            LogLevel::Fatal => "FATAL"@,
            LogLevel::Error => "ERROR"@,
            LogLevel::Warning => "WARNING"@,
            LogLevel::Info => "INFO"@,
            LogLevel::Trace => "TRACE"@,
        }
    }

    /// The label of the level as it is printed.
    pub fn label(self) -> (s: &'static str)
        ensures
            s@ == self.spec_label(),
    {
        match self {
            LogLevel::Fatal => "FATAL",
            LogLevel::Error => "ERROR",
            LogLevel::Warning => "WARNING",
            LogLevel::Info => "INFO",
            LogLevel::Trace => "TRACE",
        }
    }
}

/// The line that a sink prints for a message: the label of the level,
/// directly followed by the message.
pub fn log_line(level: LogLevel, message: &str) -> (line: String)
    ensures
        line@ == level.spec_label() + message@,
{
    String::from_str(level.label()).concat(message)
}

} // verus!
