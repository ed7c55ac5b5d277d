use vstd::prelude::*;

use crate::chain_block::ChainBlock;
use crate::chain_block_metadata::{BlockHash, ChainBlockMetadata};
use crate::checkpoint::Checkpoint;
use crate::error::Error;

verus! {

/// The chain mirror. An arena of blocks of which the slots from `root`
/// up to the last form the live run from the finalization boundary to
/// the tip; slots below `root` are discarded history and stay in place,
/// fully unlinked, so that nothing live can reach them. Because the
/// arena owns every block outright, releasing a chain frees it in one
/// go, with no recursive teardown of the links.
pub struct VirtualChain {
    /// Arena of blocks; the last slot is the tip.
    pub blocks: Vec<ChainBlock>,
    /// Slot of the finalization boundary.
    pub root: usize,
}

impl VirtualChain {
    /// Well-formedness: the live slots form one strictly linear run whose
    /// checkpoint indices rise by one per step, whose links pair every
    /// adjacent couple in both directions, and outside of which every
    /// slot is unlinked.
    pub open spec fn wf(self) -> bool {
        let n = self.blocks@.len() as int;
        let r = self.root as int;
        &&& 0 <= r < n
        &&& forall|i: int|
            r <= i < n ==> (#[trigger] self.blocks@[i]).checkpoint.index == self.blocks@[r].checkpoint.index + i
                - r
        &&& forall|i: int| r <= i < n - 1 ==> (#[trigger] self.blocks@[i]).next == Some((i + 1) as usize)
        &&& self.blocks@[n - 1].next is None
        &&& forall|i: int| r < i < n ==> (#[trigger] self.blocks@[i]).prev == Some((i - 1) as usize)
        &&& self.blocks@[r].prev is None
        &&& forall|i: int| 0 <= i < r ==> (#[trigger] self.blocks@[i]).unlinked()
    }

    /// The checkpoint at the root, as seen by contracts.
    pub open spec fn root_spec(self) -> Checkpoint {
        self.blocks@[self.root as int].checkpoint
    }

    /// The checkpoint at the tip, as seen by contracts.
    pub open spec fn tip_spec(self) -> Checkpoint {
        self.blocks@[self.blocks@.len() - 1].checkpoint
    }

    /// The live run of checkpoints, root first, tip last.
    pub open spec fn live(self) -> Seq<Checkpoint> {
        self.blocks@.subrange(self.root as int, self.blocks@.len() as int).map_values(
            |b: ChainBlock| b.checkpoint,
        )
    }

    /// Creates a new chain where both root and tip sit at the given
    /// checkpoint.
    pub fn new(checkpoint: Checkpoint) -> (c: VirtualChain)
        ensures
            c.wf(),
            c.live() == seq![checkpoint],
            c.root_spec() == checkpoint,
            c.tip_spec() == checkpoint,
            c.root == 0,
    {
        let mut blocks: Vec<ChainBlock> = Vec::new();
        blocks.push(ChainBlock::new(checkpoint));
        let c = VirtualChain { blocks, root: 0 };
        proof {
            assert(c.live() =~= seq![checkpoint]);
        }
        c
    }

    /// Returns the checkpoint for the current tip.
    pub fn tip(&self) -> (c: Checkpoint)
        requires
            self.wf(),
        ensures
            c == self.tip_spec(),
    {
        self.blocks[self.blocks.len() - 1].checkpoint
    }

    /// Returns the checkpoint for the current root.
    pub fn root(&self) -> (c: Checkpoint)
        requires
            self.wf(),
        ensures
            c == self.root_spec(),
    {
        self.blocks[self.root].checkpoint
    }

    /// Returns a copy of the block in the given arena slot.
    pub fn block_at(&self, slot: usize) -> (b: ChainBlock)
        requires
            slot < self.blocks@.len(),
        ensures
            b == self.blocks@[slot as int],
    {
        self.blocks[slot]
    }

    /// Returns the number of arena slots (live and freed).
    pub fn block_count(&self) -> (n: usize)
        ensures
            n == self.blocks@.len(),
    {
        self.blocks.len()
    }

    /// Extends the mirror by one position: a fresh block carrying the
    /// metadata is linked after the current tip and becomes the tip.
    pub fn advance_tip(&mut self, metadata: ChainBlockMetadata) -> (c: Checkpoint)
        requires
            old(self).wf(),
            old(self).tip_spec().index < u64::MAX,
        ensures
            final(self).wf(),
            c == final(self).tip_spec(),
            c == (Checkpoint { index: (old(self).tip_spec().index + 1) as u64, metadata }),
            final(self).root == old(self).root,
            final(self).root_spec() == old(self).root_spec(),
            final(self).live() == old(self).live().push(c),
    {
        let n = self.blocks.len();
        let tip_index = self.blocks[n - 1].checkpoint.index;
        let checkpoint = Checkpoint { index: tip_index + 1, metadata };
        // back-link from the new block to the old tip
        let block = ChainBlock { checkpoint, prev: Some(n - 1), next: None };
        // complete the forward link from the old tip
        let mut old_tip = self.blocks[n - 1];
        old_tip.next = Some(n);
        self.blocks[n - 1] = old_tip;
        self.blocks.push(block);
        proof {
            assert(self.live() =~= old(self).live().push(checkpoint));
        }
        checkpoint
    }

    /// Rolls back `num_checkpoints` positions from the tip, unlinking and
    /// discarding each block it walks past, and returns the new tip
    /// checkpoint together with the blue score depth of the rollback (the
    /// drop in blue score from old tip to new tip, zero if that would
    /// underflow). A rollback that would cross the finalization boundary
    /// is rejected and leaves the chain unmodified.
    pub fn rollback(&mut self, num_checkpoints: u64) -> (r: Result<(Checkpoint, u64), Error>)
        requires
            old(self).wf(),
        ensures
            final(self).wf(),
            final(self).root == old(self).root,
            final(self).root_spec() == old(self).root_spec(),
            ({
                let k = old(self).tip_spec().index;
                let rt = old(self).root_spec().index;
                if num_checkpoints > k - rt {
                    &&& r matches Err(Error::RollbackPastRoot { target_index, root_index })
                        && target_index == saturating_diff(k, num_checkpoints) && root_index == rt
                    &&& final(self).blocks@ == old(self).blocks@
                } else {
                    &&& r matches Ok((c, depth)) && c == final(self).tip_spec() && c.index == k
                        - num_checkpoints && depth == saturating_diff(
                        old(self).tip_spec().metadata.blue_score,
                        c.metadata.blue_score,
                    )
                    &&& final(self).live() == old(self).live().take(
                        old(self).live().len() - num_checkpoints,
                    )
                }
            }),
    {
        let n = self.blocks.len();
        let tip_index = self.blocks[n - 1].checkpoint.index;
        let root_index = self.blocks[self.root].checkpoint.index;
        // refuse to cross the finalization boundary
        if num_checkpoints > tip_index - root_index {
            let target_index = tip_index.saturating_sub(num_checkpoints);
            return Err(Error::RollbackPastRoot { target_index, root_index });
        }
        let old_blue_score = self.blocks[n - 1].checkpoint.metadata.blue_score;
        let mut steps: u64 = 0;
        while steps < num_checkpoints
            invariant
                old(self).wf(),
                self.wf(),
                self.root == old(self).root,
                steps <= num_checkpoints,
                num_checkpoints <= old(self).tip_spec().index - old(self).root_spec().index,
                self.blocks@.len() == old(self).blocks@.len() - steps,
                forall|i: int|
                    0 <= i < self.blocks@.len() - 1 ==> #[trigger] self.blocks@[i] == old(
                        self,
                    ).blocks@[i],
                self.blocks@[self.blocks@.len() - 1].checkpoint == old(self).blocks@[self.blocks@.len()
                    - 1].checkpoint,
            decreases num_checkpoints - steps,
        {
            let len = self.blocks.len();
            let t = self.blocks[len - 1];
            // the tip sits above the root here, so a predecessor exists
            if let Some(p) = t.prev {
                // sever the edge in both directions and drop the old tip
                let mut pred = self.blocks[p];
                pred.next = None;
                self.blocks[p] = pred;
                self.blocks.pop();
            } else {
                proof {
                    assert(false);
                }
            }
            steps = steps + 1;
        }
        let len = self.blocks.len();
        let new_tip = self.blocks[len - 1].checkpoint;
        let blue_score_depth = old_blue_score.saturating_sub(new_tip.metadata.blue_score);
        proof {
            assert(self.live() =~= old(self).live().take(
                old(self).live().len() - num_checkpoints,
            ));
        }
        Ok((new_tip, blue_score_depth))
    }

    /// Advances the root forward to the block carrying `hash`, unlinking
    /// every block it walks past so that superseded history becomes
    /// unreachable, and returns the new root checkpoint. Returns nothing
    /// when the root already carries `hash` (a no-op), and fails without
    /// touching the chain when no block between root and tip carries it;
    /// after such a failure the mirror must not be driven further.
    pub fn advance_root(&mut self, hash: &BlockHash) -> (r: Result<Option<Checkpoint>, Error>)
        requires
            old(self).wf(),
        ensures
            final(self).wf(),
            final(self).tip_spec() == old(self).tip_spec(),
            ({
                let l = old(self).live();
                let unchanged = final(self).blocks@ == old(self).blocks@ && final(self).root
                    == old(self).root;
                &&& old(self).root_spec().metadata.hash == *hash ==> r == Ok::<
                    Option<Checkpoint>,
                    Error,
                >(None) && unchanged
                &&& hash_position(l, *hash) matches Some(j) ==> old(self).root_spec().metadata.hash
                    != *hash ==> {
                    &&& r == Ok::<Option<Checkpoint>, Error>(Some(l[j]))
                    &&& final(self).live() == l.skip(j)
                    &&& final(self).root_spec() == l[j]
                }
                &&& old(self).root_spec().metadata.hash != *hash && hash_position(l, *hash) is None
                    ==> r == Err::<Option<Checkpoint>, Error>(Error::HashNotFound(*hash))
                    && unchanged
            }),
    {
        let n = self.blocks.len();
        // already at this pruning point: nothing to do
        if self.blocks[self.root].checkpoint.metadata.hash == *hash {
            return Ok(None);
        }
        // search the live run beyond the root for the target hash
        let mut j = self.root + 1;
        while j < n && !(self.blocks[j].checkpoint.metadata.hash == *hash)
            invariant
                old(self).wf(),
                self.blocks@ == old(self).blocks@,
                self.root == old(self).root,
                n == self.blocks@.len(),
                self.root < j <= n,
                hash_position(old(self).live(), *hash) == hash_position_from(
                    old(self).live(),
                    *hash,
                    j - self.root,
                ),
            decreases n - j,
        {
            proof {
                lemma_hash_position_step(old(self).live(), *hash, j - self.root);
            }
            j = j + 1;
        }
        if j == n {
            // the target hash was not found: the claimed finalization
            // point is not an ancestor of the tip, and the caller must
            // treat the mirror as destroyed
            return Err(Error::HashNotFound(*hash));
        }
        proof {
            assert(hash_position(old(self).live(), *hash) == Some(j - self.root as int));
        }
        // walk forward from the root, severing each edge it passes
        let mut k = self.root;
        while k < j
            invariant
                old(self).wf(),
                self.root == old(self).root,
                self.blocks@.len() == old(self).blocks@.len(),
                self.root <= k <= j < self.blocks@.len(),
                forall|i: int|
                    0 <= i < self.blocks@.len() ==> (#[trigger] self.blocks@[i]).checkpoint == old(
                        self,
                    ).blocks@[i].checkpoint,
                forall|i: int| 0 <= i < k ==> (#[trigger] self.blocks@[i]).unlinked(),
                self.blocks@[k as int].prev is None,
                self.blocks@[k as int].next == old(self).blocks@[k as int].next,
                forall|i: int|
                    k < i < self.blocks@.len() ==> #[trigger] self.blocks@[i] == old(
                        self,
                    ).blocks@[i],
            decreases j - k,
        {
            let mut passed = self.blocks[k];
            passed.next = None;
            self.blocks[k] = passed;
            let mut successor = self.blocks[k + 1];
            successor.prev = None;
            self.blocks[k + 1] = successor;
            k = k + 1;
        }
        self.root = j;
        let new_root = self.blocks[j].checkpoint;
        proof {
            assert(self.live() =~= old(self).live().skip(j - old(self).root as int));
        }
        Ok(Some(new_root))
    }
}

/// The slot reached from slot `s` after `k` steps along `next` links, if
/// every step found a link.
pub open spec fn follow_next(blocks: Seq<ChainBlock>, s: int, k: nat) -> Option<int>
    decreases k,
{
    if !(0 <= s < blocks.len()) {
        None
    } else if k == 0 {
        Some(s)
    } else {
        match blocks[s].next {
            Some(t) => follow_next(blocks, t as int, (k - 1) as nat),
            None => None,
        }
    }
}

/// The slot reached from slot `s` after `k` steps along `prev` links, if
/// every step found a link.
pub open spec fn follow_prev(blocks: Seq<ChainBlock>, s: int, k: nat) -> Option<int>
    decreases k,
{
    if !(0 <= s < blocks.len()) {
        None
    } else if k == 0 {
        Some(s)
    } else {
        match blocks[s].prev {
            Some(t) => follow_prev(blocks, t as int, (k - 1) as nat),
            None => None,
        }
    }
}

/// Within the live run, `k` steps along `next` land exactly `k` slots up.
proof fn lemma_follow_next_run(c: VirtualChain, s: int, k: nat)
    requires
        c.wf(),
        c.blocks@.len() <= usize::MAX,
        c.root <= s,
        s + k <= c.blocks@.len() - 1,
    ensures
        follow_next(c.blocks@, s, k) == Some(s + k),
    decreases k,
{
    if k > 0 {
        lemma_follow_next_run(c, s + 1, (k - 1) as nat);
    }
}

/// Within the live run, `k` steps along `prev` land exactly `k` slots
/// down.
proof fn lemma_follow_prev_run(c: VirtualChain, s: int, k: nat)
    requires
        c.wf(),
        c.blocks@.len() <= usize::MAX,
        c.root <= s - k,
        s <= c.blocks@.len() - 1,
    ensures
        follow_prev(c.blocks@, s, k) == Some(s - k),
    decreases k,
{
    if k > 0 {
        lemma_follow_prev_run(c, s - 1, (k - 1) as nat);
    }
}

/// The chain between root and tip is strictly linear: with `m + 1` live
/// checkpoints, the tip's index exceeds the root's by exactly `m`,
/// walking `next` from the root `m` times reaches the tip, and walking
/// `prev` from the tip `m` times reaches the root.
pub proof fn lemma_chain_linear(c: VirtualChain)
    requires
        c.wf(),
        c.blocks@.len() <= usize::MAX,
    ensures
        c.live().len() >= 1,
        c.tip_spec().index == c.root_spec().index + c.live().len() - 1,
        follow_next(c.blocks@, c.root as int, (c.live().len() - 1) as nat) == Some(
            c.blocks@.len() - 1,
        ),
        follow_prev(c.blocks@, c.blocks@.len() - 1, (c.live().len() - 1) as nat) == Some(
            c.root as int,
        ),
{
    lemma_follow_next_run(c, c.root as int, (c.live().len() - 1) as nat);
    lemma_follow_prev_run(c, c.blocks@.len() - 1, (c.live().len() - 1) as nat);
}

/// Freed history is unreachable: a walk of any length from a slot below
/// the root finds no link in either direction.
pub proof fn lemma_freed_unreachable(c: VirtualChain, s: int, k: nat)
    requires
        c.wf(),
        0 <= s < c.root,
        k >= 1,
    ensures
        follow_next(c.blocks@, s, k) is None,
        follow_prev(c.blocks@, s, k) is None,
{
}

/// Scans the live run for `h` from position `j` on and returns the first
/// position carrying it.
pub open spec fn hash_position_from(l: Seq<Checkpoint>, h: BlockHash, j: int) -> Option<int>
    decreases l.len() - j,
{
    if j < 0 || j >= l.len() {
        None
    } else if l[j].metadata.hash == h {
        Some(j)
    } else {
        hash_position_from(l, h, j + 1)
    }
}

/// The first position strictly after the root whose block carries `h`,
/// if any.
pub open spec fn hash_position(l: Seq<Checkpoint>, h: BlockHash) -> Option<int> {
    hash_position_from(l, h, 1)
}

/// Scanning on from a position that does not carry `h` finds the same
/// first position.
proof fn lemma_hash_position_step(l: Seq<Checkpoint>, h: BlockHash, j: int)
    requires
        0 <= j < l.len(),
        l[j].metadata.hash != h,
    ensures
        hash_position_from(l, h, j) == hash_position_from(l, h, j + 1),
{
}

/// The difference `a - b`, or zero where that would underflow.
pub open spec fn saturating_diff(a: u64, b: u64) -> u64 {
    if a >= b {
        (a - b) as u64
    } else {
        0
    }
}

} // verus!
