use vstd::prelude::*;

verus! {

/// An L1 block hash: a fixed 256-bit digest, held as four 64-bit words.
#[derive(Clone, Copy, Debug, Default, PartialEq, Eq, Structural)]
pub struct BlockHash {
    pub w0: u64,
    pub w1: u64,
    pub w2: u64,
    pub w3: u64,
}

impl BlockHash {
    /// Builds a hash from its four 64-bit words.
    pub fn new(w0: u64, w1: u64, w2: u64, w3: u64) -> (h: BlockHash)
        ensures
            h == (BlockHash { w0, w1, w2, w3 }),
    {
        BlockHash { w0, w1, w2, w3 }
    }
}

/// Metadata kept for each mirrored chain block: the block's hash and its
/// blue score, an externally supplied weight used to measure reorg depth.
#[derive(Clone, Copy, Debug, Default, PartialEq, Eq, Structural)]
pub struct ChainBlockMetadata {
    pub hash: BlockHash,
    pub blue_score: u64,
}

impl ChainBlockMetadata {
    /// Creates metadata from a block hash and blue score.
    pub fn new(hash: BlockHash, blue_score: u64) -> (m: ChainBlockMetadata)
        ensures
            m == (ChainBlockMetadata { hash, blue_score }),
    {
        ChainBlockMetadata { hash, blue_score }
    }

    /// Returns the L1 block hash.
    pub fn hash(&self) -> (h: BlockHash)
        ensures
            h == self.hash,
    {
        self.hash
    }

    /// Returns the blue score.
    pub fn blue_score(&self) -> (s: u64)
        ensures
            s == self.blue_score,
    {
        self.blue_score
    }
}

} // verus!
