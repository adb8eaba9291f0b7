//! Setup helpers for the runtime benchmarking commands.

use vstd::prelude::*;

verus! {

/// Generates the inherent data for the benchmark-overhead command. No
/// inherent data providers are configured, so there is nothing to generate
/// and the call always succeeds.
pub fn inherent_benchmark_data() -> (r: Result<(), String>)
    ensures
        r is Ok,
{
    Ok(())
}

} // verus!
