//! Block import benchmark: how long importing a more or less full block
//! takes.

use vstd::prelude::*;
use vstd::string::StringExecFns;

use crate::bench::{Mode, Path, SizeType};
use crate::primitives::{zero_hash, Block, Extrinsic, Header, H256};

verus! {

/// What the import benchmark is asked to measure.
pub struct ImportBenchmarkDescription {
    /// Key scheme the generated accounts use.
    pub key_types: String,
    /// Kind of transactions the generated block is filled with.
    pub block_type: String,
    /// How full the generated block is.
    pub size: SizeType,
    /// Database backend the node under measurement runs on.
    pub database_type: String,
}

/// A prepared run of the import benchmark.
pub struct ImportBenchmark {
    /// Database backend the run imports into.
    pub database: String,
    /// The block the run imports.
    pub block: Block,
    /// Kind of transactions the block is filled with.
    pub block_type: String,
}

impl ImportBenchmarkDescription {
    /// Where the benchmark is registered in the benchmark hierarchy.
    pub fn path(&self) -> (r: Path)
        ensures
            r@ == seq!["node"@, "import"@],
    {
        let r = Path::new(&["node", "import"]);
        proof {
            assert(r@ =~= seq!["node"@, "import"@]);
        }
        r
    }

    /// Prepare a run: the stub run imports an empty block at height zero
    /// whose header hashes are all zero.
    pub fn setup(self) -> (r: ImportBenchmark)
        ensures
            r.database@ == Seq::<char>::empty(),
            r.block_type@ == Seq::<char>::empty(),
            r.block.header.number == 0,
            r.block.header.parent_hash@ == zero_hash(),
            r.block.header.state_root@ == zero_hash(),
            r.block.header.extrinsics_root@ == zero_hash(),
            r.block.header.digest_logs@.len() == 0,
            r.block.extrinsics@.len() == 0,
    {
        let header = Header::new(0, H256::zero(), H256::zero(), H256::zero(), Vec::new());
        let extrinsics: Vec<Extrinsic> = Vec::new();
        ImportBenchmark {
            database: String::new(),
            block: Block::new(header, extrinsics),
            block_type: String::new(),
        }
    }

    /// The benchmark's display name.
    pub fn name(&self) -> (r: String)
        ensures
            r@ == "Block import benchmark"@,
    {
        String::from_str("Block import benchmark")
    }
}

impl ImportBenchmark {
    /// One measured run, in nanoseconds; the stub run takes no time.
    pub fn run(&mut self, _mode: Mode) -> (r: u64)
        ensures
            r == 0,
            *final(self) == *old(self),
    {
        0
    }
}

} // verus!
