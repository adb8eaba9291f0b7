//! The version identity of the node's runtime, and the timing constants the
//! runtime is configured with.

use vstd::prelude::*;
use vstd::string::StringExecFns;

verus! {

/// Milliseconds between two blocks.
pub const MILLISECS_PER_BLOCK: u64 = 6000;

/// Milliseconds per authoring slot; one slot per block.
pub const SLOT_DURATION: u64 = MILLISECS_PER_BLOCK;

/// Blocks per minute.
pub const MINUTES: u32 = 60_000 / 6000;

/// Blocks per hour.
pub const HOURS: u32 = MINUTES * 60;

/// Blocks per day.
pub const DAYS: u32 = HOURS * 24;

/// The version identity of the runtime.
pub struct RuntimeVersion {
    /// Name of the chain the runtime is for.
    pub spec_name: String,
    /// Name of this implementation of the runtime.
    pub impl_name: String,
    /// Version of the block-authoring interface.
    pub authoring_version: u32,
    /// Version of the runtime logic.
    pub spec_version: u32,
    /// Version of this implementation of the logic.
    pub impl_version: u32,
    /// Version of the transaction format.
    pub transaction_version: u32,
    /// Version of the state layout.
    pub system_version: u8,
}

/// What the runtime's version constant holds.
pub open spec fn is_runtime_version(v: RuntimeVersion) -> bool {
    &&& v.spec_name@ == "node"@
    &&& v.impl_name@ == "substrate-node"@
    &&& v.authoring_version == 1
    &&& v.spec_version == 100
    &&& v.impl_version == 1
    &&& v.transaction_version == 1
    &&& v.system_version == 1
}

/// This runtime's version.
pub fn version() -> (r: RuntimeVersion)
    ensures
        is_runtime_version(r),
{
    RuntimeVersion {
        spec_name: String::from_str("node"),
        impl_name: String::from_str("substrate-node"),
        authoring_version: 1,
        spec_version: 100,
        impl_version: 1,
        transaction_version: 1,
        system_version: 1,
    }
}

/// The runtime version as seen by a natively compiled node: the version
/// itself, and which other authoring versions it can author for.
pub struct NativeVersion {
    /// The runtime's own version.
    pub runtime_version: RuntimeVersion,
    /// Other authoring versions this native runtime can author blocks for;
    /// none besides its own.
    pub can_author_with: Vec<u8>,
}

/// The version information used to identify this runtime when compiled
/// natively.
pub fn native_version() -> (r: NativeVersion)
    ensures
        is_runtime_version(r.runtime_version),
        r.can_author_with@.len() == 0,
{
    NativeVersion { runtime_version: version(), can_author_with: Vec::new() }
}

} // verus!
