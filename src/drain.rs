//! What the background drain writes to the log for each event of the
//! worker's output stream.

use vstd::prelude::*;
use crate::decimal::{push_signed_decimal, signed_dec_chars};

verus! {

/// One event of the worker's output stream.
#[derive(Debug, Clone, PartialEq, Eq)]
pub enum WorkerEvent {
    /// A line the worker wrote to standard output.
    Stdout(Vec<u8>),
    /// A line the worker wrote to standard error.
    Stderr(Vec<u8>),
    /// The launcher reported an error of the process.
    Error(String),
    /// The process ended, with its exit code or the signal that ended it.
    Terminated { code: Option<i32>, signal: Option<i32> },
    /// An event the drain does not log.
    Other,
}

/// Where a log line goes.
#[derive(Debug, Clone, Copy, PartialEq, Eq, Structural)]
pub enum Sink {
    Stdout,
    Stderr,
}

/// A line for the host's log.
#[derive(Debug, Clone, PartialEq, Eq)]
pub struct LogLine {
    pub sink: Sink,
    pub text: String,
}

/// The characters that `String::from_utf8_lossy` makes of a byte sequence.
pub uninterp spec fn lossy_utf8(b: Seq<u8>) -> Seq<char>;

/// Relies on `String::from_utf8_lossy`: the text it decodes from the bytes,
/// with each invalid sequence replaced; the result depends on the bytes alone.
#[verifier::external_body]
fn utf8_lossy(b: &Vec<u8>) -> (r: String)
    ensures
        r@ == lossy_utf8(b@),
{
    String::from_utf8_lossy(b.as_slice()).into_owned()
}

/// An optional integer as `{:?}` shows it.
pub open spec fn option_text(v: Option<i32>) -> Seq<char> {
    match v {
        Some(x) => "Some("@ + signed_dec_chars(x as int) + ")"@,
        None => "None"@,
    }
}

/// The termination status as `{:?}` shows it.
pub open spec fn status_text(code: Option<i32>, signal: Option<i32>) -> Seq<char> {
    "TerminatedPayload { code: "@ + option_text(code) + ", signal: "@ + option_text(signal) + " }"@
}

/// The log line for an event, given the decoded text of a stdout or stderr line.
pub open spec fn log_line_spec(e: WorkerEvent) -> Option<(Sink, Seq<char>)> {
    match e {
        WorkerEvent::Stdout(b) => Some((Sink::Stdout, "API: "@ + lossy_utf8(b@))),
        WorkerEvent::Stderr(b) => Some((Sink::Stderr, "API Error: "@ + lossy_utf8(b@))),
        WorkerEvent::Error(m) => Some((Sink::Stderr, "API Process Error: "@ + m@)),
        WorkerEvent::Terminated { code, signal } => Some(
            (Sink::Stdout, "API Process Terminated with status: "@ + status_text(code, signal)),
        ),
        WorkerEvent::Other => None,
    }
}

fn push_option(s: &mut String, v: Option<i32>)
    ensures
        final(s)@ == old(s)@ + option_text(v),
{
    match v {
        Some(x) => {
            s.append("Some(");
            push_signed_decimal(s, x as i64);
            s.append(")");
            assert(s@ =~= old(s)@ + option_text(v));
        },
        None => {
            s.append("None");
        },
    }
}

/// Renders the termination status as `{:?}` shows it.
pub fn status_line(code: Option<i32>, signal: Option<i32>) -> (r: String)
    ensures
        r@ == status_text(code, signal),
{
    let mut s = String::from_str("TerminatedPayload { code: ");
    push_option(&mut s, code);
    s.append(", signal: ");
    push_option(&mut s, signal);
    s.append(" }");
    assert(s@ =~= status_text(code, signal));
    s
}

/// The line the drain logs for an event, and where; `None` for events it skips.
pub fn log_line(e: &WorkerEvent) -> (r: Option<LogLine>)
    ensures
        match log_line_spec(*e) {
            Some((sink, text)) => r matches Some(l) && l.sink == sink && l.text@ == text,
            None => r is None,
        },
{
    match e {
        WorkerEvent::Stdout(b) => {
            let t = String::from_str("API: ").concat(utf8_lossy(b).as_str());
            Some(LogLine { sink: Sink::Stdout, text: t })
        },
        WorkerEvent::Stderr(b) => {
            let t = String::from_str("API Error: ").concat(utf8_lossy(b).as_str());
            Some(LogLine { sink: Sink::Stderr, text: t })
        },
        WorkerEvent::Error(m) => {
            let t = String::from_str("API Process Error: ").concat(m.as_str());
            Some(LogLine { sink: Sink::Stderr, text: t })
        },
        WorkerEvent::Terminated { code, signal } => {
            let t = String::from_str("API Process Terminated with status: ").concat(
                status_line(*code, *signal).as_str(),
            );
            Some(LogLine { sink: Sink::Stdout, text: t })
        },
        WorkerEvent::Other => None,
    }
}

} // verus!
