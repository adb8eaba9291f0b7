//! Plain data the node works with: content hashes, opaque transaction blobs,
//! block headers and blocks.

use vstd::prelude::*;

verus! {

/// The byte length of a content hash.
pub const HASH_LEN: usize = 32;

/// The all-zero hash value.
pub open spec fn zero_hash() -> Seq<u8> {
    Seq::new(HASH_LEN as nat, |i: int| 0u8)
}

/// The all-zero 32-byte array, as an array value.
pub open spec fn zero_hash_bytes() -> [u8; 32] {
    vstd::array::spec_array_fill_for_copy_type::<u8, 32>(0u8)
}

/// A 32-byte content hash.
#[derive(Clone, Copy)]
pub struct H256 {
    pub bytes: [u8; 32],
}

impl View for H256 {
    type V = Seq<u8>;

    open spec fn view(&self) -> Seq<u8> {
        self.bytes@
    }
}

impl H256 {
    /// The all-zero hash.
    pub fn zero() -> (r: H256)
        ensures
            r.bytes == zero_hash_bytes(),
            r@ == zero_hash(),
    {
        let r = H256 { bytes: [0u8; 32] };
        proof {
            assert(r@ =~= zero_hash());
        }
        r
    }
}

/// An opaque signed transaction blob. What the bytes encode is the
/// runtime's business; the node only carries them.
pub struct Extrinsic {
    pub bytes: Vec<u8>,
}

impl View for Extrinsic {
    type V = Seq<u8>;

    open spec fn view(&self) -> Seq<u8> {
        self.bytes@
    }
}

impl Clone for Extrinsic {
    fn clone(&self) -> (r: Self)
        ensures
            r@ == self@,
    {
        Extrinsic { bytes: clone_bytes(&self.bytes) }
    }
}

/// A byte-for-byte copy of a byte vector.
pub fn clone_bytes(v: &Vec<u8>) -> (r: Vec<u8>)
    ensures
        r@ == v@,
{
    let r = v.clone();
    proof {
        assert(r@ =~= v@);
    }
    r
}

/// A block header. Hashes that nothing has computed yet are all zero.
pub struct Header {
    /// Height of the block in the chain.
    pub number: u32,
    /// Hash of the parent block.
    pub parent_hash: H256,
    /// Root of the state trie after this block.
    pub state_root: H256,
    /// Root of the trie of this block's extrinsics.
    pub extrinsics_root: H256,
    /// Consensus log entries, each an opaque blob.
    pub digest_logs: Vec<Vec<u8>>,
}

impl Header {
    /// A header with the given fields.
    pub fn new(
        number: u32,
        extrinsics_root: H256,
        state_root: H256,
        parent_hash: H256,
        digest_logs: Vec<Vec<u8>>,
    ) -> (r: Header)
        ensures
            r.number == number,
            r.extrinsics_root@ == extrinsics_root@,
            r.state_root@ == state_root@,
            r.parent_hash@ == parent_hash@,
            r.digest_logs@ == digest_logs@,
    {
        Header { number, parent_hash, state_root, extrinsics_root, digest_logs }
    }
}

/// A block: a header and the transactions it carries.
pub struct Block {
    pub header: Header,
    pub extrinsics: Vec<Extrinsic>,
}

impl Block {
    /// A block made of the given header and extrinsics.
    pub fn new(header: Header, extrinsics: Vec<Extrinsic>) -> (r: Block)
        ensures
            r.header == header,
            r.extrinsics@ == extrinsics@,
    {
        Block { header, extrinsics }
    }
}

} // verus!
