use vstd::prelude::*;

use crate::chain_block_metadata::{BlockHash, ChainBlockMetadata};
use crate::checkpoint::Checkpoint;

verus! {

/// A block in the mirrored chain: a checkpoint plus two independently
/// settable link slots. The links name slots of the arena held by the
/// owning chain; a block whose history has been discarded has both links
/// cleared, so that freed blocks are unreachable from the live run.
#[derive(Clone, Copy, Debug)]
pub struct ChainBlock {
    /// Persistable state (index + metadata).
    pub checkpoint: Checkpoint,
    /// Link to the preceding block, or empty if this is the root.
    pub prev: Option<usize>,
    /// Link to the following block, or empty if this is the tip.
    pub next: Option<usize>,
}

impl ChainBlock {
    /// Creates a standalone block with no links.
    pub fn new(checkpoint: Checkpoint) -> (b: ChainBlock)
        ensures
            b == (ChainBlock { checkpoint, prev: None, next: None }),
    {
        ChainBlock { checkpoint, prev: None, next: None }
    }

    /// Returns the persistable checkpoint (index + metadata).
    pub fn checkpoint(&self) -> (c: Checkpoint)
        ensures
            c == self.checkpoint,
    {
        self.checkpoint
    }

    /// Returns the link to the preceding block.
    pub fn prev(&self) -> (p: Option<usize>)
        ensures
            p == self.prev,
    {
        self.prev
    }

    /// Returns the link to the following block.
    pub fn next(&self) -> (n: Option<usize>)
        ensures
            n == self.next,
    {
        self.next
    }

    /// True when neither link slot is set.
    pub open spec fn unlinked(self) -> bool {
        self.prev is None && self.next is None
    }
}

impl Default for ChainBlock {
    /// A sentinel root: zero hash, zero blue score, index zero, no
    /// links.
    fn default() -> (b: ChainBlock)
        ensures
            b == (ChainBlock {
                checkpoint: Checkpoint {
                    index: 0,
                    metadata: ChainBlockMetadata {
                        hash: BlockHash { w0: 0, w1: 0, w2: 0, w3: 0 },
                        blue_score: 0,
                    },
                },
                prev: None,
                next: None,
            }),
    {
        ChainBlock::new(
            Checkpoint {
                index: 0,
                metadata: ChainBlockMetadata {
                    hash: BlockHash { w0: 0, w1: 0, w2: 0, w3: 0 },
                    blue_score: 0,
                },
            },
        )
    }
}

} // verus!
