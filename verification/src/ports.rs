//! Port allocator: pick the first candidate port whose bind probe
//! succeeded, falling back to the scan start when none did.
//!
//! Probing itself is socket I/O and happens in the host; this module
//! receives one flag per candidate in `[start, start + attempts)` saying
//! whether that port was bindable, and makes the choice.

use vstd::prelude::*;
use crate::scan::{first_true, has_true, lemma_first_true, lemma_first_true_is};

verus! {

/// The port the allocator picks for scan outcomes `bindable`, starting at
/// `start`: the first bindable candidate, or `start` itself when none is
/// bindable (a deliberate best-effort fallback — startup is never blocked
/// on a fully occupied range).
pub open spec fn chosen_port(start: u16, bindable: Seq<bool>) -> int {
    if has_true(bindable) {
        start + first_true(bindable)
    } else {
        start as int
    }
}

/// Choose the port for a completed scan. `bindable[i]` reports the probe
/// of port `start + i`.
pub fn find_available_port(start: u16, bindable: &Vec<bool>) -> (port: u16)
    requires
        bindable@.len() > 0,
        start + bindable@.len() <= 0x1_0000,
    ensures
        port as int == chosen_port(start, bindable@),
        has_true(bindable@) ==> start <= port < start + bindable@.len(),
        has_true(bindable@) ==> bindable@[port - start],
        !has_true(bindable@) ==> port == start,
{
    let n = bindable.len();
    let mut k: usize = 0;
    while k < n
        invariant
            k <= n,
            n == bindable@.len(),
            start + n <= 0x1_0000,
            forall|j: int| 0 <= j < k ==> !bindable@[j],
        decreases n - k,
    {
        if bindable[k] {
            proof {
                lemma_first_true_is(bindable@, k as int);
            }
            return start + (k as u16);
        }
        k += 1;
    }
    start
}

/// Port allocator correctness: a scan with a bindable candidate yields a
/// port in range that was bindable at probe time; a scan with none yields
/// the start port, and the allocator never fails.
pub proof fn lemma_allocator_correct(start: u16, bindable: Seq<bool>)
    requires
        bindable.len() > 0,
        start + bindable.len() <= 0x1_0000,
    ensures
        has_true(bindable) ==> start <= chosen_port(start, bindable) < start + bindable.len(),
        has_true(bindable) ==> bindable[chosen_port(start, bindable) - start],
        !has_true(bindable) ==> chosen_port(start, bindable) == start,
{
    if has_true(bindable) {
        lemma_first_true(bindable);
    }
}

} // verus!
