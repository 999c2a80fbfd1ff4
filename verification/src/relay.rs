//! Output relay: classify events from the child's output stream into
//! structured log entries, and consume the stream until it ends or the
//! child terminates.
//!
//! The host reads the child's pipes and feeds the events in; it prints
//! the entries this module hands back.

use vstd::prelude::*;
use vstd::string::StringExecFns;
use crate::decimal::{signed_decimal_string, spec_signed_decimal};

verus! {

/// One event from the child's output stream: a line of stdout or stderr,
/// termination with an exit code, or some other event the relay ignores.
pub enum ProcessEvent {
    Stdout(Vec<u8>),
    Stderr(Vec<u8>),
    Terminated(i32),
    Other,
}

/// Severity of a structured log line.
#[derive(Clone, Copy, PartialEq, Eq, Debug)]
pub enum LogLevel {
    Info,
    Warn,
    Error,
}

/// One structured log line the relay emits.
pub struct LogEntry {
    pub level: LogLevel,
    pub message: String,
}

/// What `String::from_utf8_lossy` yields for a byte sequence: the
/// decoded characters, invalid sequences replaced.
pub uninterp spec fn lossy_decode(bytes: Seq<u8>) -> Seq<char>;

/// Relies on std's `String::from_utf8_lossy`: decodes the bytes as
/// UTF-8, substituting the replacement character for invalid sequences;
/// the result depends on the bytes alone, and empty input stays empty.
#[verifier::external_body]
fn utf8_lossy(bytes: &Vec<u8>) -> (r: String)
    ensures
        r@ == lossy_decode(bytes@),
        bytes@.len() == 0 ==> r@.len() == 0,
{
    String::from_utf8_lossy(bytes.as_slice()).into_owned()
}

/// The log line for one line of child output.
pub open spec fn output_message(line: Seq<u8>) -> Seq<char> {
    "[sidecar] "@ + lossy_decode(line)
}

/// The log line for child termination.
pub open spec fn termination_message(status: int) -> Seq<char> {
    "[sidecar] terminated with status: "@ + spec_signed_decimal(status)
}

/// The entry the relay logs for one event: info for stdout and for
/// termination, warning for stderr, nothing for other events.
pub open spec fn spec_entry_of(e: ProcessEvent) -> Option<(LogLevel, Seq<char>)> {
    match e {
        ProcessEvent::Stdout(line) => Some((LogLevel::Info, output_message(line@))),
        ProcessEvent::Stderr(line) => Some((LogLevel::Warn, output_message(line@))),
        ProcessEvent::Terminated(status) => Some(
            (LogLevel::Info, termination_message(status as int)),
        ),
        ProcessEvent::Other => None,
    }
}

/// Whether the relay stops consuming after this event.
pub open spec fn spec_stops(e: ProcessEvent) -> bool {
    e is Terminated
}

/// Handle one event from the child's stream: the entry to log, if any,
/// and whether the relay keeps consuming afterwards.
pub fn relay_event(e: &ProcessEvent) -> (r: (Option<LogEntry>, bool))
    ensures
        r.1 == !spec_stops(*e),
        r.0 is Some <==> spec_entry_of(*e) is Some,
        r.0 is Some ==> r.0->Some_0.level == spec_entry_of(*e)->Some_0.0,
        r.0 is Some ==> r.0->Some_0.message@ == spec_entry_of(*e)->Some_0.1,
{
    match e {
        ProcessEvent::Stdout(line) => {
            let mut m = String::from_str("[sidecar] ");
            let d = utf8_lossy(line);
            m.append(d.as_str());
            (Some(LogEntry { level: LogLevel::Info, message: m }), true)
        },
        ProcessEvent::Stderr(line) => {
            let mut m = String::from_str("[sidecar] ");
            let d = utf8_lossy(line);
            m.append(d.as_str());
            (Some(LogEntry { level: LogLevel::Warn, message: m }), true)
        },
        ProcessEvent::Terminated(status) => {
            let mut m = String::from_str("[sidecar] terminated with status: ");
            let d = signed_decimal_string(*status);
            m.append(d.as_str());
            (Some(LogEntry { level: LogLevel::Info, message: m }), false)
        },
        ProcessEvent::Other => (None, true),
    }
}

/// How many events the relay consumes from a stream: everything up to
/// and including the first termination event, or the whole stream when
/// the child never terminates before it closes.
pub open spec fn spec_consumed(s: Seq<ProcessEvent>) -> int
    decreases s.len(),
{
    if s.len() == 0 {
        0
    } else if spec_stops(s[0]) {
        1
    } else {
        1 + spec_consumed(s.drop_first())
    }
}

/// The log the relay produces for a stream.
pub open spec fn spec_relay_log(s: Seq<ProcessEvent>) -> Seq<(LogLevel, Seq<char>)>
    decreases s.len(),
{
    if s.len() == 0 {
        Seq::empty()
    } else {
        let head = match spec_entry_of(s[0]) {
            Some(le) => seq![le],
            None => Seq::empty(),
        };
        if spec_stops(s[0]) {
            head
        } else {
            head + spec_relay_log(s.drop_first())
        }
    }
}

/// The relay never consumes past the end of the stream.
pub proof fn lemma_consumed_bounds(s: Seq<ProcessEvent>)
    ensures
        0 <= spec_consumed(s) <= s.len(),
    decreases s.len(),
{
    if s.len() > 0 && !spec_stops(s[0]) {
        lemma_consumed_bounds(s.drop_first());
    }
}

/// Run the relay over a scripted stream: classify each event into the
/// log until the stream ends or the child terminates. Returns the log
/// and how many events were consumed.
pub fn relay_stream(events: &Vec<ProcessEvent>) -> (r: (Vec<LogEntry>, usize))
    ensures
        r.0@.map_values(|le: LogEntry| (le.level, le.message@)) == spec_relay_log(events@),
        r.1 == spec_consumed(events@),
{
    let r = relay_suffix(events, 0);
    proof {
        assert(events@.skip(0) =~= events@);
    }
    r
}

fn relay_suffix(events: &Vec<ProcessEvent>, i: usize) -> (r: (Vec<LogEntry>, usize))
    requires
        i <= events@.len(),
    ensures
        r.0@.map_values(|le: LogEntry| (le.level, le.message@)) == spec_relay_log(
            events@.skip(i as int),
        ),
        r.1 == spec_consumed(events@.skip(i as int)),
    decreases events@.len() - i,
{
    let ghost suffix = events@.skip(i as int);
    if i == events.len() {
        let out: Vec<LogEntry> = Vec::new();
        proof {
            assert(out@.map_values(|le: LogEntry| (le.level, le.message@)) =~= spec_relay_log(
                suffix,
            ));
        }
        (out, 0)
    } else {
        proof {
            assert(suffix[0] == events@[i as int]);
            assert(suffix.drop_first() =~= events@.skip(i as int + 1));
        }
        let (entry, keep_going) = relay_event(&events[i]);
        let mut out: Vec<LogEntry> = Vec::new();
        match entry {
            Some(le) => out.push(le),
            None => (),
        }
        if keep_going {
            let (mut rest, n) = relay_suffix(events, i + 1);
            proof {
                lemma_consumed_bounds(events@.skip(i as int + 1));
            }
            out.append(&mut rest);
            proof {
                assert(out@.map_values(|le: LogEntry| (le.level, le.message@)) =~= spec_relay_log(
                    suffix,
                ));
            }
            (out, 1 + n)
        } else {
            proof {
                assert(out@.map_values(|le: LogEntry| (le.level, le.message@)) =~= spec_relay_log(
                    suffix,
                ));
            }
            (out, 1)
        }
    }
}

} // verus!
