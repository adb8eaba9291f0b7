//! Block construction benchmark, together with the minimal transaction-pool
//! facade that hands a fixed, pre-generated batch of ready transactions to
//! the block proposer.

use vstd::prelude::*;
use vstd::string::StringExecFns;

use crate::bench::{Mode, Path, SizeType};
use crate::primitives::{zero_hash_bytes, Extrinsic, H256};

verus! {

/// What the construction benchmark is asked to measure.
pub struct ConstructionBenchmarkDescription {
    /// Key scheme the generated accounts use.
    pub key_types: String,
    /// Kind of transactions the generated block is filled with.
    pub block_type: String,
    /// How full the generated block is.
    pub size: SizeType,
    /// Database backend the node under measurement runs on.
    pub database_type: String,
}

/// A prepared run of the construction benchmark.
pub struct ConstructionBenchmark {
    database: String,
    transactions: String,
}

impl View for ConstructionBenchmark {
    type V = (Seq<char>, Seq<char>);

    closed spec fn view(&self) -> (Seq<char>, Seq<char>) {
        (self.database@, self.transactions@)
    }
}

impl ConstructionBenchmarkDescription {
    /// Where the benchmark is registered in the benchmark hierarchy.
    pub fn path(&self) -> (r: Path)
        ensures
            r@ == seq!["node"@, "proposer"@],
    {
        let r = Path::new(&["node", "proposer"]);
        proof {
            assert(r@ =~= seq!["node"@, "proposer"@]);
        }
        r
    }

    /// Prepare a run: the stub run works on an unnamed database and an
    /// empty batch of transactions.
    pub fn setup(self) -> (r: ConstructionBenchmark)
        ensures
            r@ == (Seq::<char>::empty(), Seq::<char>::empty()),
    {
        ConstructionBenchmark { database: String::new(), transactions: String::new() }
    }

    /// The benchmark's display name.
    pub fn name(&self) -> (r: String)
        ensures
            r@ == "Block construction benchmark"@,
    {
        String::from_str("Block construction benchmark")
    }
}

impl ConstructionBenchmark {
    /// One measured run, in nanoseconds; the stub run takes no time.
    pub fn run(&mut self, _mode: Mode) -> (r: u64)
        ensures
            r == 0,
            final(self)@ == old(self)@,
    {
        0
    }
}

/// The view of one pooled transaction: its blob and its content hash.
pub struct TxView {
    pub data: Seq<u8>,
    pub hash: Seq<u8>,
}

/// A transaction as the pool holds it: the opaque blob together with its
/// content hash.
pub struct PoolTransaction {
    pub data: Extrinsic,
    pub hash: H256,
}

impl View for PoolTransaction {
    type V = TxView;

    open spec fn view(&self) -> TxView {
        TxView { data: self.data@, hash: self.hash@ }
    }
}

impl Clone for PoolTransaction {
    fn clone(&self) -> (r: Self)
        ensures
            r@ == self@,
    {
        PoolTransaction { data: self.data.clone(), hash: self.hash }
    }
}

impl From<Extrinsic> for PoolTransaction {
    /// Admit a blob into the pool; its hash is not computed here and is
    /// left all zero.
    fn from(e: Extrinsic) -> (r: PoolTransaction) {
        PoolTransaction { data: e, hash: H256::zero() }
    }
}

impl vstd::std_specs::convert::FromSpecImpl<Extrinsic> for PoolTransaction {
    open spec fn obeys_from_spec() -> bool {
        true
    }

    open spec fn from_spec(e: Extrinsic) -> PoolTransaction {
        PoolTransaction { data: e, hash: H256 { bytes: zero_hash_bytes() } }
    }
}

impl PoolTransaction {
    /// The transaction blob.
    pub fn data(&self) -> (r: &Extrinsic)
        ensures
            r@ == self@.data,
    {
        &self.data
    }

    /// The transaction's content hash.
    pub fn hash(&self) -> (r: &H256)
        ensures
            r@ == self@.hash,
    {
        &self.hash
    }
}

/// The pool facade: a fixed batch of transactions, all of them ready.
pub struct Transactions {
    transactions: Vec<PoolTransaction>,
}

impl View for Transactions {
    type V = Seq<TxView>;

    closed spec fn view(&self) -> Seq<TxView> {
        self.transactions@.map_values(|t: PoolTransaction| t@)
    }
}

impl Transactions {
    /// A pool holding exactly the given batch.
    pub fn new(transactions: Vec<PoolTransaction>) -> (r: Transactions)
        ensures
            r@ == transactions@.map_values(|t: PoolTransaction| t@),
    {
        let r = Transactions { transactions };
        proof {
            assert(r@ =~= r.transactions@.map_values(|t: PoolTransaction| t@));
        }
        r
    }

    /// How many transactions the pool holds.
    pub fn len(&self) -> (r: usize)
        ensures
            r == self@.len(),
    {
        self.transactions.len()
    }

    /// The transactions ready for inclusion at the given block: the whole
    /// batch, in order.
    pub fn ready_at(&self, _at: H256) -> (it: TransactionsIterator)
        ensures
            it@ == self@,
    {
        let txs = clone_transactions(&self.transactions);
        let it = TransactionsIterator { transactions: txs, position: 0 };
        proof {
            assert(it@ =~= self@);
        }
        it
    }

    /// Record transactions reported invalid at a block. The batch is fixed,
    /// so nothing is removed and no transaction is handed back.
    pub fn report_invalid(&self, _at: Option<H256>, _invalid: &Vec<H256>) -> (r: Vec<
        PoolTransaction,
    >)
        ensures
            r@.len() == 0,
    {
        Vec::new()
    }
}

/// An element-wise copy of a batch of transactions; the copies have the
/// same views as the originals.
fn clone_transactions(v: &Vec<PoolTransaction>) -> (r: Vec<PoolTransaction>)
    ensures
        r@.map_values(|t: PoolTransaction| t@) == v@.map_values(|t: PoolTransaction| t@),
{
    let mut r: Vec<PoolTransaction> = Vec::new();
    let mut i: usize = 0;
    while i < v.len()
        invariant
            0 <= i <= v@.len(),
            r@.len() == i,
            forall|j: int| 0 <= j < i ==> #[trigger] r@[j]@ == v@[j]@,
        decreases v@.len() - i,
    {
        r.push(v[i].clone());
        i += 1;
    }
    proof {
        assert(r@.map_values(|t: PoolTransaction| t@) =~= v@.map_values(
            |t: PoolTransaction| t@,
        ));
    }
    r
}

/// Iteration over the ready transactions of a pool, front to back.
pub struct TransactionsIterator {
    transactions: Vec<PoolTransaction>,
    position: usize,
}

impl TransactionsIterator {
    #[verifier::type_invariant]
    spec fn wf(self) -> bool {
        self.position <= self.transactions@.len()
    }
}

impl View for TransactionsIterator {
    type V = Seq<TxView>;

    /// The transactions not yet handed out, in the order they will come.
    closed spec fn view(&self) -> Seq<TxView> {
        self.transactions@.map_values(|t: PoolTransaction| t@).skip(self.position as int)
    }
}

impl TransactionsIterator {
    /// Hand out the next ready transaction, or `None` when the batch is
    /// exhausted.
    pub fn next(&mut self) -> (r: Option<PoolTransaction>)
        ensures
            old(self)@.len() == 0 ==> r is None && final(self)@ == old(self)@,
            old(self)@.len() > 0 ==> (match r {
                Some(t) => t@ == old(self)@.first() && final(self)@ == old(self)@.skip(1),
                None => false,
            }),
    {
        proof {
            use_type_invariant(&*self);
        }
        if self.position < self.transactions.len() {
            let t = self.transactions[self.position].clone();
            self.position = self.position + 1;
            proof {
                assert(self@ =~= old(self)@.skip(1));
            }
            Some(t)
        } else {
            None
        }
    }

    /// Note a transaction the proposer found invalid. The batch is fixed
    /// and pre-validated, so nothing is recorded and iteration goes on
    /// unchanged.
    pub fn report_invalid(&mut self, _tx: &PoolTransaction)
        ensures
            final(self)@ == old(self)@,
    {
    }

    /// Drain the iterator, as a block proposer filling a block does: the
    /// transactions it hands out, in the order they come.
    pub fn collect_remaining(&mut self) -> (r: Vec<PoolTransaction>)
        ensures
            r@.map_values(|t: PoolTransaction| t@) == old(self)@,
            final(self)@.len() == 0,
    {
        let mut out: Vec<PoolTransaction> = Vec::new();
        loop
            invariant
                out@.map_values(|t: PoolTransaction| t@) == old(self)@.take(out@.len() as int),
                self@ == old(self)@.skip(out@.len() as int),
                out@.len() <= old(self)@.len(),
            ensures
                out@.map_values(|t: PoolTransaction| t@) == old(self)@,
                self@.len() == 0,
            decreases old(self)@.len() - out@.len(),
        {
            let ghost k = out@.len() as int;
            match self.next() {
                Some(t) => {
                    out.push(t);
                    proof {
                        assert(old(self)@.skip(k).skip(1) =~= old(self)@.skip(k + 1));
                        assert(out@.map_values(|t: PoolTransaction| t@) =~= old(self)@.take(
                            k + 1,
                        ));
                    }
                },
                None => {
                    proof {
                        assert(out@.map_values(|t: PoolTransaction| t@) =~= old(self)@);
                    }
                    break ;
                },
            }
        }
        out
    }
}

} // verus!
