//! Readiness prober: poll the backend's health endpoint until a
//! successful response or a fixed attempt budget is exhausted, with a
//! fixed retry pause after every failed attempt.
//!
//! The HTTP request and the timer are host I/O; the host feeds each
//! attempt's outcome to [`Prober::record`] and performs the action the
//! decision asks for. The explicit [`Readiness::TimedOut`] variant makes
//! exhaustion observable rather than leaving only the absence of a
//! success signal.

use vstd::prelude::*;
use vstd::string::StringExecFns;
use crate::decimal::{decimal_string, spec_decimal};
use crate::scan::{first_true, has_true, lemma_first_true, lemma_first_true_is};

verus! {

/// The fixed attempt budget: with one pause after each failed attempt
/// the whole phase gives up after about thirty seconds.
pub const MAX_ATTEMPTS: u32 = 60;

/// The fixed pause between attempts, in milliseconds.
pub const RETRY_MILLIS: u64 = 500;

/// Outcome of one health-check attempt: a response with its HTTP status,
/// or no response at all (connection refused, network error).
#[derive(Clone, Copy, PartialEq, Eq, Debug)]
pub enum ProbeResult {
    Status(u16),
    NetworkError,
}

/// The explicit result of the readiness phase.
#[derive(Clone, Copy, PartialEq, Eq, Debug)]
pub enum Readiness {
    Ready(u16),
    TimedOut,
}

/// The decision after one attempt: emit the readiness signal with the
/// port and stop, pause and retry, or give up and stop.
#[derive(Clone, Copy, PartialEq, Eq, Debug)]
pub enum ProbeDecision {
    Ready(u16),
    RetrySleep,
    GiveUp,
}

/// Whether an HTTP status indicates success.
pub open spec fn is_success_status(status: u16) -> bool {
    200 <= status < 300
}

/// Whether one attempt's outcome counts as success: a response whose
/// status indicates success. Only the status matters, never the body.
pub open spec fn probe_succeeds(r: ProbeResult) -> bool {
    match r {
        ProbeResult::Status(status) => is_success_status(status),
        ProbeResult::NetworkError => false,
    }
}

/// Decide whether an HTTP status indicates success.
pub fn status_is_success(status: u16) -> (b: bool)
    ensures
        b == is_success_status(status),
{
    200 <= status && status < 300
}

/// Readiness prober state for one port: how many attempts were made, and
/// whether the phase already ended (in success or exhaustion).
pub struct Prober {
    port: u16,
    attempts: u32,
    finished: bool,
}

impl Prober {
    /// The port whose health endpoint is polled.
    pub closed spec fn port_spec(self) -> u16 {
        self.port
    }

    /// How many attempts have been made.
    pub closed spec fn attempts_spec(self) -> u32 {
        self.attempts
    }

    /// Whether the phase has ended; after that no attempt is recorded,
    /// so the readiness signal is emitted at most once per run.
    pub closed spec fn finished_spec(self) -> bool {
        self.finished
    }

    pub open spec fn wf(self) -> bool {
        &&& self.attempts_spec() <= MAX_ATTEMPTS
        &&& (!self.finished_spec() ==> self.attempts_spec() < MAX_ATTEMPTS)
    }

    /// How many attempts have been made so far.
    pub fn attempts_made(&self) -> (n: u32)
        ensures
            n == self.attempts_spec(),
    {
        self.attempts
    }

    /// Start the phase for a port: no attempts yet.
    pub fn new(port: u16) -> (p: Self)
        ensures
            p.wf(),
            p.port_spec() == port,
            p.attempts_spec() == 0,
            !p.finished_spec(),
    {
        Prober { port, attempts: 0, finished: false }
    }

    /// Record the outcome of one attempt and decide what comes next:
    /// success ends the phase with the readiness signal; a failure earns
    /// a pause and a retry while budget remains, and exhausts the phase
    /// on the last attempt.
    pub fn record(&mut self, r: &ProbeResult) -> (d: ProbeDecision)
        requires
            old(self).wf(),
            !old(self).finished_spec(),
        ensures
            final(self).wf(),
            final(self).port_spec() == old(self).port_spec(),
            final(self).attempts_spec() == old(self).attempts_spec() + 1,
            probe_succeeds(*r) ==> d == ProbeDecision::Ready(old(self).port_spec())
                && final(self).finished_spec(),
            !probe_succeeds(*r) && old(self).attempts_spec() + 1 < MAX_ATTEMPTS ==> d
                == ProbeDecision::RetrySleep && !final(self).finished_spec(),
            !probe_succeeds(*r) && old(self).attempts_spec() + 1 == MAX_ATTEMPTS ==> d
                == ProbeDecision::GiveUp && final(self).finished_spec(),
    {
        self.attempts = self.attempts + 1;
        let success = match r {
            ProbeResult::Status(status) => status_is_success(*status),
            ProbeResult::NetworkError => false,
        };
        if success {
            self.finished = true;
            ProbeDecision::Ready(self.port)
        } else if self.attempts < MAX_ATTEMPTS {
            ProbeDecision::RetrySleep
        } else {
            self.finished = true;
            ProbeDecision::GiveUp
        }
    }
}

/// The success flag of each attempt outcome in a script.
pub open spec fn success_flags(s: Seq<ProbeResult>) -> Seq<bool> {
    s.map_values(|r: ProbeResult| probe_succeeds(r))
}

/// Whether a script lets the phase succeed within the attempt budget.
pub open spec fn script_succeeds(s: Seq<ProbeResult>) -> bool {
    has_true(success_flags(s).take(MAX_ATTEMPTS as int))
}

/// The index of the first successful attempt in a script; meaningful
/// only when `script_succeeds(s)`.
pub open spec fn spec_ready_attempt(s: Seq<ProbeResult>) -> int {
    first_true(success_flags(s).take(MAX_ATTEMPTS as int))
}

/// Report of a whole readiness phase: its outcome, the attempts made,
/// and the pauses taken (each of `RETRY_MILLIS`).
pub struct ProbeReport {
    pub outcome: Readiness,
    pub attempts_used: u32,
    pub sleeps: u32,
}

/// Run the whole readiness phase against a script of attempt outcomes,
/// one per attempt the phase could make. Success on some attempt yields
/// the readiness signal for that port, exactly once, with one pause per
/// failed attempt before it; exhaustion yields `TimedOut` after the full
/// budget of attempts and pauses.
pub fn run_probe(port: u16, results: &Vec<ProbeResult>) -> (r: ProbeReport)
    requires
        results@.len() >= MAX_ATTEMPTS,
    ensures
        script_succeeds(results@) ==> r.outcome == Readiness::Ready(port),
        script_succeeds(results@) ==> r.attempts_used == spec_ready_attempt(results@) + 1,
        script_succeeds(results@) ==> r.sleeps == spec_ready_attempt(results@),
        !script_succeeds(results@) ==> r.outcome == Readiness::TimedOut,
        !script_succeeds(results@) ==> r.attempts_used == MAX_ATTEMPTS,
        !script_succeeds(results@) ==> r.sleeps == MAX_ATTEMPTS,
{
    let ghost flags = success_flags(results@).take(MAX_ATTEMPTS as int);
    let mut prober = Prober::new(port);
    let mut i: usize = 0;
    let mut sleeps: u32 = 0;
    loop
        invariant
            prober.wf(),
            !prober.finished_spec(),
            prober.port_spec() == port,
            prober.attempts_spec() == i,
            sleeps == i,
            i < MAX_ATTEMPTS,
            results@.len() >= MAX_ATTEMPTS,
            flags == success_flags(results@).take(MAX_ATTEMPTS as int),
            forall|j: int| 0 <= j < i ==> !flags[j],
        decreases MAX_ATTEMPTS - i,
    {
        proof {
            assert(flags[i as int] == probe_succeeds(results@[i as int]));
        }
        let d = prober.record(&results[i]);
        match d {
            ProbeDecision::Ready(p) => {
                proof {
                    lemma_first_true_is(flags, i as int);
                }
                return ProbeReport {
                    outcome: Readiness::Ready(p),
                    attempts_used: (i as u32) + 1,
                    sleeps,
                };
            },
            ProbeDecision::RetrySleep => {
                sleeps = sleeps + 1;
                i = i + 1;
            },
            ProbeDecision::GiveUp => {
                proof {
                    assert(forall|j: int| 0 <= j < flags.len() ==> !flags[j]);
                }
                return ProbeReport {
                    outcome: Readiness::TimedOut,
                    attempts_used: MAX_ATTEMPTS,
                    sleeps: sleeps + 1,
                };
            },
        }
    }
}

/// Whether a byte is an ASCII decimal digit.
pub open spec fn is_digit(b: u8) -> bool {
    0x30 <= b <= 0x39
}

/// The value of an ASCII decimal digit.
pub open spec fn digit_val(b: u8) -> nat {
    (b - 0x30) as nat
}

/// Where each space sits in a status line.
pub open spec fn space_flags(s: Seq<u8>) -> Seq<bool> {
    s.map_values(|b: u8| b == 0x20)
}

/// The status code of an HTTP status line (`HTTP/1.1 200 OK`): the
/// three-digit number right after the first space, or nothing when the
/// line has no space followed by three digits there.
pub open spec fn spec_status_of(s: Seq<u8>) -> Option<u16> {
    if !has_true(space_flags(s)) {
        None
    } else {
        let i = first_true(space_flags(s));
        if i + 4 <= s.len() && is_digit(s[i + 1]) && is_digit(s[i + 2]) && is_digit(s[i + 3]) {
            Some(
                (100 * digit_val(s[i + 1]) + 10 * digit_val(s[i + 2]) + digit_val(
                    s[i + 3],
                )) as u16,
            )
        } else {
            None
        }
    }
}

/// Extract the status code from an HTTP status line. Only the status
/// matters to the prober; everything else in the response is ignored.
pub fn parse_status_line(line: &Vec<u8>) -> (r: Option<u16>)
    ensures
        r == spec_status_of(line@),
{
    let ghost flags = space_flags(line@);
    let n = line.len();
    let mut k: usize = 0;
    while k < n
        invariant
            k <= n,
            n == line@.len(),
            flags == space_flags(line@),
            forall|j: int| 0 <= j < k ==> !flags[j],
        decreases n - k,
    {
        if line[k] == 0x20 {
            proof {
                lemma_first_true_is(flags, k as int);
            }
            if n - k >= 4 {
                let b1 = line[k + 1];
                let b2 = line[k + 2];
                let b3 = line[k + 3];
                if 0x30 <= b1 && b1 <= 0x39 && 0x30 <= b2 && b2 <= 0x39 && 0x30 <= b3 && b3
                    <= 0x39 {
                    let code: u16 = 100 * ((b1 - 0x30) as u16) + 10 * ((b2 - 0x30) as u16) + (
                    (b3 - 0x30) as u16);
                    proof {
                        let i = k as int;
                        assert(flags[i]);
                        assert(has_true(flags));
                        assert(i + 4 <= line@.len());
                        assert(is_digit(line@[i + 1]));
                        assert(is_digit(line@[i + 2]));
                        assert(is_digit(line@[i + 3]));
                        assert(digit_val(line@[i + 1]) < 10);
                        assert(digit_val(line@[i + 2]) < 10);
                        assert(digit_val(line@[i + 3]) < 10);
                        assert(code as nat == 100 * digit_val(line@[i + 1]) + 10 * digit_val(
                            line@[i + 2],
                        ) + digit_val(line@[i + 3]));
                    }
                    return Some(code);
                } else {
                    return None;
                }
            } else {
                return None;
            }
        }
        k += 1;
    }
    proof {
        if has_true(flags) {
            lemma_first_true(flags);
        }
    }
    None
}

/// Classify one raw health-check response: the status code of its
/// status line, when one is there, else a failed attempt.
pub fn probe_result_of_response(status_line: &Vec<u8>) -> (r: ProbeResult)
    ensures
        spec_status_of(status_line@) is Some ==> r == ProbeResult::Status(
            spec_status_of(status_line@)->Some_0,
        ),
        spec_status_of(status_line@) is None ==> r == ProbeResult::NetworkError,
{
    match parse_status_line(status_line) {
        Some(code) => ProbeResult::Status(code),
        None => ProbeResult::NetworkError,
    }
}

/// The log line announcing readiness, with the port and the one-based
/// attempt index that succeeded.
pub open spec fn spec_ready_message(port: u16, attempt: u32) -> Seq<char> {
    "Backend ready on port "@ + spec_decimal(port as nat) + " (attempt "@ + spec_decimal(
        attempt as nat,
    ) + ")"@
}

/// Build the log line announcing readiness.
pub fn ready_message(port: u16, attempt: u32) -> (m: String)
    ensures
        m@ == spec_ready_message(port, attempt),
{
    let mut m = String::from_str("Backend ready on port ");
    let p = decimal_string(port as u64);
    m.append(p.as_str());
    m.append(" (attempt ");
    let a = decimal_string(attempt as u64);
    m.append(a.as_str());
    m.append(")");
    m
}

} // verus!
