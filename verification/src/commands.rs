//! The decisions behind the command-line entry points: which chain
//! specification a `--chain` identifier selects, and which chains the
//! `purge-chain` command may touch.

use vstd::prelude::*;
use vstd::string::StringExecFns;

use crate::strutil::{spec_starts_with, str_eq, str_starts_with};

verus! {

/// Where a requested chain specification comes from.
#[derive(Clone, Copy, PartialEq, Eq, Structural, Debug)]
pub enum SpecSelection {
    /// The built-in development chain.
    Development,
    /// The built-in local testnet; also what a staging request falls back
    /// to.
    LocalTestnet,
    /// The well-known public test network.
    FlamingFir,
    /// A specification read from a file at the given path.
    JsonFile,
}

/// Decide where the chain specification for a `--chain` identifier comes
/// from. An empty identifier is rejected; an identifier that names no
/// built-in chain is taken as a file path.
pub fn select_spec(id: &str) -> (r: Result<SpecSelection, String>)
    ensures
        match r {
            Ok(sel) => id@.len() > 0 && sel == (if id@ == "dev"@ {
                SpecSelection::Development
            } else if id@ == "local"@ || id@ == "staging"@ {
                SpecSelection::LocalTestnet
            } else if id@ == "fir"@ || id@ == "flaming-fir"@ {
                SpecSelection::FlamingFir
            } else {
                SpecSelection::JsonFile
            }),
            Err(e) => id@.len() == 0 && e@
                == "Please specify which chain you want to run, e.g. --dev or --chain=local"@,
        },
{
    if id.is_empty() {
        return Err(
            String::from_str("Please specify which chain you want to run, e.g. --dev or --chain=local"),
        );
    }
    if str_eq(id, "dev") {
        Ok(SpecSelection::Development)
    } else if str_eq(id, "local") || str_eq(id, "staging") {
        Ok(SpecSelection::LocalTestnet)
    } else if str_eq(id, "fir") || str_eq(id, "flaming-fir") {
        Ok(SpecSelection::FlamingFir)
    } else {
        Ok(SpecSelection::JsonFile)
    }
}

/// Whether the `purge-chain` command may remove the chain with this
/// identifier: only development and local chains may be purged.
pub fn purge_allowed(chain_id: &str) -> (r: bool)
    ensures
        r == (spec_starts_with(chain_id@, "dev"@) || spec_starts_with(chain_id@, "local"@)),
{
    str_starts_with(chain_id, "dev") || str_starts_with(chain_id, "local")
}

} // verus!
