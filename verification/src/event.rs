use vstd::prelude::*;

use crate::chain_block_metadata::BlockHash;
use crate::checkpoint::Checkpoint;

verus! {

/// Why the driver stopped for good.
#[derive(Clone, Copy, Debug, PartialEq, Eq, Structural)]
pub enum FatalReason {
    /// The mirror was asked to roll back past its finalization boundary.
    RollbackPastRoot { target_index: u64, root_index: u64 },
    /// A finalization advance named a hash absent from the mirror.
    HashNotFound(BlockHash),
    /// The configured connect strategy gave up on connecting.
    StrategyExhausted,
}

/// Events surfaced to consumers, in the order they were produced. The
/// header and accepted-transaction payloads of an added block are not
/// interpreted here and are carried through as the type parameters `H`
/// and `T`.
#[derive(Clone, Debug, PartialEq, Eq)]
pub enum L1Event<H, T> {
    /// Connection to the L1 node established.
    Connected,
    /// Connection to the L1 node lost.
    Disconnected,
    /// A new chain block with its accepted transactions.
    ChainBlockAdded { checkpoint: Checkpoint, header: H, accepted_transactions: Vec<T> },
    /// Blocks after this checkpoint were removed by a reorg.
    Rollback { checkpoint: Checkpoint, blue_score_depth: u64 },
    /// Blocks up to this checkpoint are finalized and can be pruned.
    Finalized(Checkpoint),
    /// The driver hit a fatal condition and stopped.
    Fatal { reason: FatalReason },
}

} // verus!
