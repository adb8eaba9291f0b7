//! The node's executor identity: which runtime a natively compiled node
//! dispatches calls to.

use vstd::prelude::*;

use crate::runtime::{is_runtime_version, native_version, NativeVersion};

verus! {

/// Dispatches runtime calls of a natively compiled node to this runtime.
pub struct ExecutorDispatch;

impl ExecutorDispatch {
    /// The version of the runtime this executor dispatches to.
    pub fn native_version() -> (r: NativeVersion)
        ensures
            is_runtime_version(r.runtime_version),
            r.can_author_with@.len() == 0,
    {
        native_version()
    }
}

} // verus!
