use vstd::prelude::*;

use crate::chain_block_metadata::BlockHash;

verus! {

/// Failures of the chain mirror.
#[derive(Clone, Copy, Debug, PartialEq, Eq, Structural)]
pub enum Error {
    /// A rollback would cross the finalization boundary; the chain was
    /// left unmodified. Recoverable at the call site.
    RollbackPastRoot { target_index: u64, root_index: u64 },
    /// The hash handed to a root advance names no block between the root
    /// and the tip: the claimed finalization point is not an ancestor of
    /// the tip, and the mirror must not be driven further.
    HashNotFound(BlockHash),
}

} // verus!
