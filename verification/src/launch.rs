//! Process launcher support: the exact argument shape handed to the
//! backend executable, and the health-check URL built from the loopback
//! address and the chosen port.
//!
//! Resolving the executable and spawning the child are host I/O; the
//! host passes these values through unchanged.

use vstd::prelude::*;
use vstd::string::StringExecFns;
use crate::decimal::{decimal_string, spec_decimal};

verus! {

/// The exact arguments for the backend: `--port <port> --tauri`, the
/// trailing flag marking managed-embedding mode.
pub open spec fn spec_launch_args(port: u16) -> Seq<Seq<char>> {
    seq!["--port"@, spec_decimal(port as nat), "--tauri"@]
}

/// The health-check URL: `http://127.0.0.1:<port>/health`.
pub open spec fn spec_health_url(port: u16) -> Seq<char> {
    "http://127.0.0.1:"@ + spec_decimal(port as nat) + "/health"@
}

/// Build the argument list for the backend executable.
pub fn launch_args(port: u16) -> (args: Vec<String>)
    ensures
        args@.map_values(|a: String| a@) == spec_launch_args(port),
        args@.len() == 3,
{
    let mut v: Vec<String> = Vec::new();
    v.push(String::from_str("--port"));
    v.push(decimal_string(port as u64));
    v.push(String::from_str("--tauri"));
    proof {
        assert(v@.map_values(|a: String| a@) =~= spec_launch_args(port));
    }
    v
}

/// Build the health-check URL for the chosen port.
pub fn health_url(port: u16) -> (url: String)
    ensures
        url@ == spec_health_url(port),
{
    let mut u = String::from_str("http://127.0.0.1:");
    let p = decimal_string(port as u64);
    u.append(p.as_str());
    u.append("/health");
    u
}

} // verus!
