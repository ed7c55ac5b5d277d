use vstd::prelude::*;

use crate::chain_block_metadata::ChainBlockMetadata;

verus! {

/// A position in the mirrored chain: a monotonically increasing index
/// paired with the metadata of the block at that position.
#[derive(Clone, Copy, Debug, Default, PartialEq, Eq, Structural)]
pub struct Checkpoint {
    pub index: u64,
    pub metadata: ChainBlockMetadata,
}

impl Checkpoint {
    /// Creates a checkpoint from an index and block metadata.
    pub fn new(index: u64, metadata: ChainBlockMetadata) -> (c: Checkpoint)
        ensures
            c == (Checkpoint { index, metadata }),
    {
        Checkpoint { index, metadata }
    }

    /// Returns the position index.
    pub fn index(&self) -> (i: u64)
        ensures
            i == self.index,
    {
        self.index
    }

    /// Returns the block metadata.
    pub fn metadata(&self) -> (m: ChainBlockMetadata)
        ensures
            m == self.metadata,
    {
        self.metadata
    }
}

} // verus!
