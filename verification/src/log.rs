//! Kinds of log line, and what each kind decides: its colour, its stream,
//! and whether it is printed at all.

use vstd::prelude::*;

verus! {

/// The kind of a log line.
#[derive(Clone, Copy, Debug, PartialEq, Eq, Structural)]
pub enum LogType {
    Debug,
    Info,
    Warning,
    Error,
    Performance,
}

impl LogType {
    /// The escape sequence that colours a line of this kind: gray, white,
    /// yellow, red, green.
    pub open spec fn color_text(self) -> Seq<char> {
        match self {
            LogType::Debug => "\x1b[90m"@,
            LogType::Info => "\x1b[37m"@,
            LogType::Warning => "\x1b[33m"@,
            LogType::Error => "\x1b[31m"@,
            LogType::Performance => "\x1b[32m"@,
        }
    }

    /// Warnings and errors go to the error stream, the rest to the output.
    pub open spec fn goes_to_stderr(self) -> bool {
        self is Warning || self is Error
    }

    /// Every kind is printed but performance lines, which need debugging
    /// switched on.
    pub open spec fn shown(self, debug: bool) -> bool {
        !(self is Performance) || debug
    }

    pub fn color(&self) -> (code: &'static str)
        ensures
            code@ == self.color_text(),
    {
        match self {
            LogType::Debug => "\x1b[90m",
            LogType::Info => "\x1b[37m",
            LogType::Warning => "\x1b[33m",
            LogType::Error => "\x1b[31m",
            LogType::Performance => "\x1b[32m",
        }
    }

    pub fn to_stderr(&self) -> (yes: bool)
        ensures
            yes == self.goes_to_stderr(),
    {
        match self {
            LogType::Warning | LogType::Error => true,
            LogType::Debug | LogType::Info | LogType::Performance => false,
        }
    }

    pub fn is_shown(&self, debug: bool) -> (yes: bool)
        ensures
            yes == self.shown(debug),
    {
        match self {
            LogType::Performance => debug,
            _ => true,
        }
    }
}

/// The escape sequence that ends a coloured line.
pub open spec fn reset_text() -> Seq<char> {
    "\x1b[0m"@
}

/// A log line: colour, the time in square brackets, a space, the message,
/// and the reset sequence.
pub open spec fn line_text(kind: LogType, timestamp: Seq<char>, message: Seq<char>) -> Seq<char> {
    kind.color_text() + seq!['['] + timestamp + seq![']', ' '] + message + reset_text()
}

/// Lays out a log line of `kind`.
pub fn format_line(kind: LogType, timestamp: &str, message: &str) -> (line: String)
    ensures
        line@ == line_text(kind, timestamp@, message@),
{
    let mut line = String::from_str(kind.color());
    line.append("[");
    line.append(timestamp);
    line.append("] ");
    line.append(message);
    line.append("\x1b[0m");
    proof {
        reveal_strlit("[");
        reveal_strlit("] ");
        assert("["@ == seq!['[']);
        assert("] "@ == seq![']', ' ']);
    }
    line
}

} // verus!
