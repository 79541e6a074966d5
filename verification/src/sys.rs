//! The machine-dependent inputs of the codec configuration.

use vstd::prelude::*;

verus! {

/// Relies on num_cpus::get: the number of logical CPUs available to the
/// process, documented to always be at least 1. The count depends on the
/// machine, so nothing beyond that lower bound is assumed. Values above
/// u32::MAX are clamped, which keeps the bound.
#[verifier::external_body]
fn cpu_count() -> (n: u32)
    ensures
        n >= 1,
{
    match u32::try_from(num_cpus::get()) {
        Ok(n) => n,
        Err(_) => u32::MAX,
    }
}

/// The thread count handed to a codec context: the caller's request, or
/// the machine's logical CPU count when the caller asked for 0 (meaning
/// "pick for me").
pub fn effective_threads(num_threads: u32) -> (threads: u32)
    ensures
        num_threads != 0 ==> threads == num_threads,
        threads >= 1,
{
    if num_threads == 0 {
        cpu_count()
    } else {
        num_threads
    }
}

} // verus!
