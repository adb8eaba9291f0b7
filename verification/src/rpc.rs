//! Dependencies of the node's RPC extensions.

use std::sync::Arc;

use vstd::prelude::*;

verus! {

/// Everything the full-node RPC extensions need: a client, a transaction
/// pool, and whether unsafe RPC calls are denied.
pub struct FullDeps<C, P> {
    /// The client instance to use.
    pub client: Arc<C>,
    /// Transaction pool instance.
    pub pool: Arc<P>,
    /// Whether to deny unsafe RPC calls.
    pub deny_unsafe: bool,
}

impl<C, P> FullDeps<C, P> {
    /// Bundle the dependencies of the RPC extensions.
    pub fn new(client: Arc<C>, pool: Arc<P>, deny_unsafe: bool) -> (r: FullDeps<C, P>)
        ensures
            r.client == client,
            r.pool == pool,
            r.deny_unsafe == deny_unsafe,
    {
        FullDeps { client, pool, deny_unsafe }
    }
}

} // verus!
