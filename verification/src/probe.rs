//! The pure logic of the single-shot heartbeat prober: which port to target,
//! which URL to request, and how to turn the response (or the lack of one)
//! into an exit code and a diagnostic line.

use vstd::prelude::*;

use crate::text::{spec_dec_nat, u64_to_dec};

verus! {

/// The outcome of one probe: a healthy response, a transport-level failure
/// carrying the transport's error description, or a response whose HTTP
/// status code lies outside the healthy range.
#[derive(Debug)]
pub enum ProbeOutcome {
    Success,
    TransportFailure(String),
    StatusFailure(u16),
}

/// A status code counts as healthy exactly when it lies in [200, 299].
pub open spec fn spec_healthy(code: int) -> bool {
    200 <= code <= 299
}

/// The outcome determined by a transport result: an error description on
/// transport failure, otherwise the received status code, classified.
pub open spec fn spec_outcome(r: Result<u16, String>) -> ProbeOutcome {
    match r {
        Ok(code) => if spec_healthy(code as int) {
            ProbeOutcome::Success
        } else {
            ProbeOutcome::StatusFailure(code)
        },
        Err(m) => ProbeOutcome::TransportFailure(m),
    }
}

/// The process exit code for an outcome: 0 for success, 1 otherwise.
pub open spec fn spec_exit_code(o: ProbeOutcome) -> u8 {
    match o {
        ProbeOutcome::Success => 0,
        ProbeOutcome::TransportFailure(_) => 1,
        ProbeOutcome::StatusFailure(_) => 1,
    }
}

/// The diagnostic line for an unhealthy status code.
pub open spec fn spec_status_line(code: int) -> Seq<char> {
    "Received status code "@ + spec_dec_nat(code as nat)
}

/// The port the prober targets: the supplied value when one is present,
/// otherwise the default port 8000.
pub fn resolve_port(supplied: Option<String>) -> (port: String)
    ensures
        match supplied {
            Some(s) => port@ == s@,
            None => port@ == "8000"@,
        },
{
    match supplied {
        Some(s) => s,
        None => String::from_str("8000"),
    }
}

/// The heartbeat URL for a port: `http://localhost:<port>/heartbeat`.
pub fn heartbeat_url(port: &str) -> (url: String)
    ensures
        url@ == "http://localhost:"@ + port@ + "/heartbeat"@,
{
    let mut s = String::from_str("http://localhost:");
    s.append(port);
    s.append("/heartbeat");
    s
}

/// Classifies a transport result into a probe outcome.
pub fn probe_outcome(r: Result<u16, String>) -> (o: ProbeOutcome)
    ensures
        o == spec_outcome(r),
{
    match r {
        Ok(code) => if 200 <= code && code <= 299 {
            ProbeOutcome::Success
        } else {
            ProbeOutcome::StatusFailure(code)
        },
        Err(m) => ProbeOutcome::TransportFailure(m),
    }
}

/// The exit code the prober process reports for an outcome.
pub fn exit_code(o: &ProbeOutcome) -> (code: u8)
    ensures
        code == spec_exit_code(*o),
{
    match o {
        ProbeOutcome::Success => 0,
        ProbeOutcome::TransportFailure(_) => 1,
        ProbeOutcome::StatusFailure(_) => 1,
    }
}

/// The line the prober prints for an outcome: nothing on success, the
/// transport's error description on transport failure, and a line naming
/// the status code on an unhealthy response.
pub fn diagnostic(o: &ProbeOutcome) -> (line: Option<String>)
    ensures
        (line is Some) == (spec_exit_code(*o) == 1),
        match *o {
            ProbeOutcome::Success => line is None,
            ProbeOutcome::TransportFailure(m) => line matches Some(l) && l@ == m@,
            ProbeOutcome::StatusFailure(code) => line matches Some(l) && l@ == spec_status_line(
                code as int,
            ),
        },
{
    match o {
        ProbeOutcome::Success => None,
        ProbeOutcome::TransportFailure(m) => Some(m.clone()),
        ProbeOutcome::StatusFailure(code) => {
            let mut s = String::from_str("Received status code ");
            s.append(u64_to_dec(*code as u64).as_str());
            Some(s)
        },
    }
}

/// Every transport result whose status code lies in [200, 299] maps to the
/// successful outcome, whose exit code is 0 and which prints nothing.
pub proof fn lemma_healthy_status_exits_zero(code: u16)
    requires
        200 <= code <= 299,
    ensures
        spec_outcome(Ok(code)) == ProbeOutcome::Success,
        spec_exit_code(spec_outcome(Ok(code))) == 0,
{
}

/// Every transport result whose status code lies outside [200, 299] maps to
/// a status failure carrying that code, whose exit code is 1 and whose
/// diagnostic line names the code.
pub proof fn lemma_unhealthy_status_exits_one(code: u16)
    requires
        !(200 <= code <= 299),
    ensures
        spec_outcome(Ok(code)) == ProbeOutcome::StatusFailure(code),
        spec_exit_code(spec_outcome(Ok(code))) == 1,
{
}

/// Every failed transport result maps to a transport failure carrying its
/// error description unchanged, whose exit code is 1. The diagnostic line
/// repeats that description, so it is non-empty whenever the description is.
pub proof fn lemma_transport_failure_exits_one(m: String)
    ensures
        spec_outcome(Err(m)) == ProbeOutcome::TransportFailure(m),
        spec_exit_code(spec_outcome(Err(m))) == 1,
{
}

} // verus!
