//! Transaction pool benchmark: how long filling the pool for the next block
//! takes.

use vstd::prelude::*;
use vstd::string::StringExecFns;

use crate::bench::{Mode, Path};

verus! {

/// What the pool benchmark is asked to measure.
pub struct PoolBenchmarkDescription {
    /// Database backend the node under measurement runs on.
    pub database_type: String,
}

/// A prepared run of the pool benchmark.
pub struct PoolBenchmark {
    database: String,
}

impl View for PoolBenchmark {
    type V = Seq<char>;

    closed spec fn view(&self) -> Seq<char> {
        self.database@
    }
}

impl PoolBenchmarkDescription {
    /// Where the benchmark is registered in the benchmark hierarchy.
    pub fn path(&self) -> (r: Path)
        ensures
            r@ == seq!["node"@, "txpool"@],
    {
        let r = Path::new(&["node", "txpool"]);
        proof {
            assert(r@ =~= seq!["node"@, "txpool"@]);
        }
        r
    }

    /// Prepare a run: the stub run works on an unnamed database.
    pub fn setup(self) -> (r: PoolBenchmark)
        ensures
            r@ == Seq::<char>::empty(),
    {
        PoolBenchmark { database: String::new() }
    }

    /// The benchmark's display name.
    pub fn name(&self) -> (r: String)
        ensures
            r@ == "Transaction pool benchmark"@,
    {
        String::from_str("Transaction pool benchmark")
    }
}

impl PoolBenchmark {
    /// One measured run, in nanoseconds; the stub run takes no time.
    pub fn run(&mut self, _mode: Mode) -> (r: u64)
        ensures
            r == 0,
            final(self)@ == old(self)@,
    {
        0
    }
}

} // verus!
