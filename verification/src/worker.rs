use vstd::prelude::*;

use crate::chain_block_metadata::{BlockHash, ChainBlockMetadata};
use crate::checkpoint::Checkpoint;
use crate::error::Error;
use crate::event::{FatalReason, L1Event};
use crate::reorg_filter::{forwards, observed, ReorgFilter};
use crate::virtual_chain::{hash_position, saturating_diff, VirtualChain};

verus! {

/// The driver's connection/backfill/streaming states.
#[derive(Clone, Copy, Debug, PartialEq, Eq, Structural)]
pub enum WorkerState {
    /// Not yet asked to connect.
    Disconnected,
    /// A connection attempt is under way.
    Connecting,
    /// Connected; replaying saved history into the mirror.
    Backfilling,
    /// Connected; live chain notifications drive the mirror.
    Streaming,
    /// The connection dropped; a new attempt is under way.
    Reconnecting,
    /// Terminal: nothing further is processed or emitted.
    Stopped,
}

/// One block carried by a chain-changed notification.
#[derive(Clone, Debug, PartialEq, Eq)]
pub struct AddedBlock<H, T> {
    /// Hash and blue score of the block.
    pub metadata: ChainBlockMetadata,
    /// Block header, carried through uninterpreted.
    pub header: H,
    /// Transactions confirmed by this block, carried through
    /// uninterpreted.
    pub accepted_transactions: Vec<T>,
}

/// What the surrounding loop feeds the driver: connection outcomes,
/// chain notifications, and the stop request.
#[derive(Clone, Debug, PartialEq, Eq)]
pub enum WorkerInput<H, T> {
    /// A connection attempt succeeded; `start` is the checkpoint to
    /// found a fresh mirror on when none was carried over or saved.
    ConnectSucceeded { start: Checkpoint },
    /// A connection attempt failed or timed out.
    ConnectFailed,
    /// The selected chain changed: `removed` positions rolled back from
    /// the tip, then the `added` blocks appended.
    ChainUpdate { removed: u64, added: Vec<AddedBlock<H, T>> },
    /// The node's pruning point moved to the block carrying this hash.
    PruningAdvanced { hash: BlockHash },
    /// The connection dropped.
    ConnectionLost,
    /// Cooperative shutdown.
    StopRequested,
}

/// Whether an event for position `index` is surfaced, given the cut
/// below which history is assumed already known.
pub open spec fn index_visible(index: u64, cut: Option<u64>) -> bool {
    match cut {
        Option::Some(s) => index > s,
        Option::None => true,
    }
}

/// The checkpoints that appending `added` after tip index `tip_index`
/// creates, in order.
pub open spec fn added_checkpoints<H, T>(added: Seq<AddedBlock<H, T>>, tip_index: int) -> Seq<
    Checkpoint,
>
    decreases added.len(),
{
    if added.len() == 0 {
        Seq::empty()
    } else {
        seq![Checkpoint { index: (tip_index + 1) as u64, metadata: added[0].metadata }]
            + added_checkpoints(added.drop_first(), tip_index + 1)
    }
}

/// The events surfaced for appending `added` after tip index
/// `tip_index`, with positions at or below the cut suppressed.
pub open spec fn added_events<H, T>(
    added: Seq<AddedBlock<H, T>>,
    tip_index: int,
    cut: Option<u64>,
) -> Seq<L1Event<H, T>>
    decreases added.len(),
{
    if added.len() == 0 {
        Seq::empty()
    } else {
        let checkpoint = Checkpoint { index: (tip_index + 1) as u64, metadata: added[0].metadata };
        let head: Seq<L1Event<H, T>> = if index_visible(checkpoint.index, cut) {
            seq![
                L1Event::ChainBlockAdded {
                    checkpoint,
                    header: added[0].header,
                    accepted_transactions: added[0].accepted_transactions,
                },
            ]
        } else {
            Seq::empty()
        };
        head + added_events(added.drop_first(), tip_index + 1, cut)
    }
}

/// Whether two optional mirrors hold exactly the same arena and root.
pub open spec fn same_mirror(a: Option<VirtualChain>, b: Option<VirtualChain>) -> bool {
    match (a, b) {
        (Option::None, Option::None) => true,
        (Option::Some(x), Option::Some(y)) => x.blocks@ == y.blocks@ && x.root == y.root,
        _ => false,
    }
}

/// The background driver: owns the chain mirror and the reorg filter,
/// and decides, input by input, which state to move to and which events
/// to surface. The surrounding loop performs the connecting, waiting
/// and notification reading that this crate does not do, and feeds the
/// outcomes in as [`WorkerInput`]s.
pub struct Worker {
    /// Where the driver stands in its connection lifecycle.
    pub state: WorkerState,
    /// The chain mirror, once one has been founded.
    pub chain: Option<VirtualChain>,
    /// Dampener for shallow-reorg reporting.
    pub filter: ReorgFilter,
    /// Whether failed connection attempts are retried without end.
    pub retry: bool,
    /// Saved finalization boundary to resume from, if any.
    pub saved_root: Option<Checkpoint>,
    /// Saved tip to backfill up to, if any.
    pub saved_tip: Option<Checkpoint>,
}

impl Worker {
    /// Well-formedness: a founded mirror is well-formed, and the states
    /// that read or drive the mirror have one.
    pub open spec fn wf(self) -> bool {
        &&& (self.chain matches Some(c) ==> c.wf())
        &&& (self.state is Streaming ==> self.chain is Some)
        &&& (self.state is Backfilling ==> self.chain is Some && self.saved_tip is Some)
    }

    /// The cut below which events are suppressed: while backfilling,
    /// positions at or below the saved tip are history the consumer
    /// already knows.
    pub open spec fn backfill_cut(self) -> Option<u64> {
        if self.state is Backfilling {
            match self.saved_tip {
                Option::Some(t) => Option::Some(t.index),
                Option::None => Option::None,
            }
        } else {
            Option::None
        }
    }

    /// Whether the driver sits in a state from which a connection
    /// attempt is made.
    pub open spec fn connecting_state(self) -> bool {
        self.state is Disconnected || self.state is Connecting || self.state is Reconnecting
    }

    /// Creates a driver that has not yet asked to connect. The saved
    /// root and tip, when both given, make the first connection backfill
    /// the mirror between them before live events are surfaced.
    pub fn new(
        retry: bool,
        saved_root: Option<Checkpoint>,
        saved_tip: Option<Checkpoint>,
        halving_period_ms: u64,
        now_ms: u64,
    ) -> (w: Worker)
        ensures
            w.wf(),
            w.state is Disconnected,
            w.chain is None,
            w.filter == (ReorgFilter { threshold: 0, last_decay_ms: now_ms, halving_period_ms }),
            w.retry == retry,
            w.saved_root == saved_root,
            w.saved_tip == saved_tip,
    {
        Worker {
            state: WorkerState::Disconnected,
            chain: None,
            filter: ReorgFilter::new(halving_period_ms, now_ms),
            retry,
            saved_root,
            saved_tip,
        }
    }
}

/// Maps a mirror error to the fatal reason surfaced to consumers.
fn fatal_reason_of(e: Error) -> (r: FatalReason)
    ensures
        r == (match e {
            Error::RollbackPastRoot { target_index, root_index } => FatalReason::RollbackPastRoot {
                target_index,
                root_index,
            },
            Error::HashNotFound(h) => FatalReason::HashNotFound(h),
        }),
{
    match e {
        Error::RollbackPastRoot { target_index, root_index } => FatalReason::RollbackPastRoot {
            target_index,
            root_index,
        },
        Error::HashNotFound(h) => FatalReason::HashNotFound(h),
    }
}

/// Appends each of `added` to the mirror in turn and surfaces an event
/// for every appended block whose position lies above the cut.
fn apply_added<H, T>(
    chain: &mut VirtualChain,
    added: Vec<AddedBlock<H, T>>,
    cut: Option<u64>,
    out: &mut Vec<L1Event<H, T>>,
)
    requires
        old(chain).wf(),
        old(chain).tip_spec().index + added@.len() <= u64::MAX,
    ensures
        final(chain).wf(),
        final(chain).root == old(chain).root,
        final(chain).root_spec() == old(chain).root_spec(),
        final(chain).live() == old(chain).live() + added_checkpoints(
            added@,
            old(chain).tip_spec().index as int,
        ),
        final(chain).tip_spec().index == old(chain).tip_spec().index + added@.len(),
        final(out)@ == old(out)@ + added_events(added@, old(chain).tip_spec().index as int, cut),
{
    let mut added = added;
    let ghost a0 = added@;
    let ghost t0 = old(chain).tip_spec().index as int;
    while added.len() > 0
        invariant
            chain.wf(),
            chain.root == old(chain).root,
            chain.root_spec() == old(chain).root_spec(),
            t0 + a0.len() <= u64::MAX,
            added@.len() <= a0.len(),
            chain.tip_spec().index == t0 + a0.len() - added@.len(),
            chain.live() + added_checkpoints(added@, chain.tip_spec().index as int) == old(
                chain,
            ).live() + added_checkpoints(a0, t0),
            out@ + added_events(added@, chain.tip_spec().index as int, cut) == old(out)@
                + added_events(a0, t0, cut),
        decreases added.len(),
    {
        let ghost pre_added = added@;
        let ghost pre_live = chain.live();
        let ghost pre_out = out@;
        let ghost pre_tip = chain.tip_spec().index as int;
        let b = added.remove(0);
        let cp = chain.advance_tip(b.metadata);
        let surfaced = match cut {
            Some(s) => cp.index() > s,
            None => true,
        };
        if surfaced {
            out.push(
                L1Event::ChainBlockAdded {
                    checkpoint: cp,
                    header: b.header,
                    accepted_transactions: b.accepted_transactions,
                },
            );
        }
        proof {
            let ev = L1Event::ChainBlockAdded {
                checkpoint: cp,
                header: pre_added[0].header,
                accepted_transactions: pre_added[0].accepted_transactions,
            };
            assert(added_checkpoints(pre_added, pre_tip) == seq![cp] + added_checkpoints(
                added@,
                pre_tip + 1,
            ));
            assert(chain.live() + added_checkpoints(added@, chain.tip_spec().index as int)
                =~= pre_live + added_checkpoints(pre_added, pre_tip));
            let head: Seq<L1Event<H, T>> = if index_visible(cp.index, cut) {
                seq![ev]
            } else {
                Seq::empty()
            };
            assert(added_events(pre_added, pre_tip, cut) == head + added_events(
                added@,
                pre_tip + 1,
                cut,
            ));
            assert(out@ + added_events(added@, chain.tip_spec().index as int, cut) =~= pre_out
                + added_events(pre_added, pre_tip, cut));
        }
    }
    proof {
        assert(added_checkpoints(added@, chain.tip_spec().index as int) =~= Seq::<
            Checkpoint,
        >::empty());
        assert(chain.live() =~= chain.live() + added_checkpoints(
            added@,
            chain.tip_spec().index as int,
        ));
        assert(added_events(added@, chain.tip_spec().index as int, cut) =~= Seq::<
            L1Event<H, T>,
        >::empty());
        assert(out@ =~= out@ + added_events(added@, chain.tip_spec().index as int, cut));
    }
}

impl Worker {
    /// Handles one input at time `now_ms` and returns the events to
    /// surface, in order. Every decision of the driver lives here: which
    /// state to move to, how to apply a chain notification to the
    /// mirror, whether a rollback is deep enough to report, and when to
    /// stop for good. Once stopped, every further input is absorbed in
    /// silence, and every stop for a fatal cause surfaces exactly one
    /// `Fatal` event as it happens.
    pub fn handle<H, T>(&mut self, input: WorkerInput<H, T>, now_ms: u64) -> (out: Vec<
        L1Event<H, T>,
    >)
        requires
            old(self).wf(),
            input matches WorkerInput::ChainUpdate { removed, added } ==> (old(self).chain matches Some(c) ==> c.tip_spec().index + added@.len() <= u64::MAX),
        ensures
            final(self).wf(),
            final(self).retry == old(self).retry,
            final(self).saved_root == old(self).saved_root,
            final(self).saved_tip == old(self).saved_tip,
            // the terminal state absorbs everything in silence
            old(self).state is Stopped ==> final(self).state is Stopped && same_mirror(
                old(self).chain,
                final(self).chain,
            ) && final(self).filter == old(self).filter && out@ == Seq::<L1Event<H, T>>::empty(),
            // cooperative shutdown: silent, immediate, permanent
            input is StopRequested && !(old(self).state is Stopped) ==> final(self).state
                is Stopped && same_mirror(old(self).chain, final(self).chain) && final(self).filter
                == old(self).filter && out@ == Seq::<L1Event<H, T>>::empty(),
            // a connection came up
            input matches WorkerInput::ConnectSucceeded { start } ==> !(old(self).state is Stopped)
                ==> ({
                &&& !old(self).connecting_state() ==> final(self).state == old(self).state
                    && same_mirror(old(self).chain, final(self).chain) && final(self).filter == old(self).filter && out@ == Seq::<L1Event<H, T>>::empty()
                &&& old(self).connecting_state() ==> {
                    &&& out@ == seq![L1Event::<H, T>::Connected]
                    &&& final(self).filter == old(self).filter
                    &&& old(self).chain is Some ==> same_mirror(old(self).chain, final(self).chain)
                        && final(self).state is Streaming
                    &&& old(self).chain is None && old(self).saved_root is Some && old(self).saved_tip is Some ==> final(self).state is Backfilling && (final(self).chain matches Some(c2) && c2.live() == seq![old(self).saved_root->0])
                    &&& old(self).chain is None && !(old(self).saved_root is Some && old(self).saved_tip is Some) ==> final(self).state is Streaming && (final(self).chain matches Some(c2) && c2.live() == seq![start])
                }
            }),
            // a connection attempt failed
            input is ConnectFailed ==> !(old(self).state is Stopped) ==> ({
                &&& !old(self).connecting_state() ==> final(self).state == old(self).state
                    && same_mirror(old(self).chain, final(self).chain) && final(self).filter
                    == old(self).filter && out@ == Seq::<L1Event<H, T>>::empty()
                &&& old(self).connecting_state() && old(self).retry ==> final(self).state
                    is Connecting && same_mirror(old(self).chain, final(self).chain)
                    && final(self).filter == old(self).filter && out@ == Seq::<
                    L1Event<H, T>,
                >::empty()
                &&& old(self).connecting_state() && !old(self).retry ==> final(self).state
                    is Stopped && same_mirror(old(self).chain, final(self).chain) && final(self).filter == old(self).filter && out@ == seq![
                    L1Event::<H, T>::Fatal { reason: FatalReason::StrategyExhausted },
                ]
            }),
            // the connection dropped
            input is ConnectionLost ==> !(old(self).state is Stopped) ==> ({
                let connected = old(self).state is Streaming || old(self).state is Backfilling;
                &&& !connected ==> final(self).state == old(self).state && same_mirror(
                    old(self).chain,
                    final(self).chain,
                ) && final(self).filter == old(self).filter && out@ == Seq::<
                    L1Event<H, T>,
                >::empty()
                &&& connected ==> final(self).state is Reconnecting && same_mirror(
                    old(self).chain,
                    final(self).chain,
                ) && final(self).filter == old(self).filter && out@ == seq![
                    L1Event::<H, T>::Disconnected,
                ]
            }),
            // the selected chain changed
            input matches WorkerInput::ChainUpdate { removed, added } ==> !(old(self).state
                is Stopped) ==> ({
                let processing = old(self).state is Streaming || old(self).state is Backfilling;
                &&& !processing ==> final(self).state == old(self).state && same_mirror(
                    old(self).chain,
                    final(self).chain,
                ) && final(self).filter == old(self).filter && out@ == Seq::<
                    L1Event<H, T>,
                >::empty()
                &&& old(self).chain matches Some(c) ==> processing ==> ({
                    let k = c.tip_spec().index;
                    let rt = c.root_spec().index;
                    let l = c.live();
                    let cut = old(self).backfill_cut();
                    if removed > k - rt {
                        // the notification asked past the finalization
                        // boundary: a logic failure, fatal
                        &&& out@ == seq![
                            L1Event::<H, T>::Fatal {
                                reason: (FatalReason::RollbackPastRoot {
                                    target_index: saturating_diff(k, removed),
                                    root_index: rt,
                                }),
                            },
                        ]
                        &&& final(self).state is Stopped
                        &&& same_mirror(old(self).chain, final(self).chain)
                        &&& final(self).filter == old(self).filter
                    } else {
                        let m = l.len() - removed;
                        let cp_rb = l[m - 1];
                        let depth = saturating_diff(
                            c.tip_spec().metadata.blue_score,
                            cp_rb.metadata.blue_score,
                        );
                        let rb_events: Seq<L1Event<H, T>> = if removed > 0 && forwards(
                            old(self).filter,
                            depth,
                            now_ms,
                        ) && index_visible(cp_rb.index, cut) {
                            seq![
                                (L1Event::Rollback { checkpoint: cp_rb, blue_score_depth: depth }),
                            ]
                        } else {
                            Seq::empty()
                        };
                        &&& out@ == rb_events + added_events(added@, cp_rb.index as int, cut)
                        &&& final(self).chain matches Some(c2) ==> c2.live() == l.take(m as int)
                            + added_checkpoints(added@, cp_rb.index as int) && c2.root_spec()
                            == c.root_spec()
                        &&& final(self).chain is Some
                        &&& removed == 0 ==> final(self).filter == old(self).filter
                        &&& removed > 0 ==> observed(
                            old(self).filter,
                            final(self).filter,
                            depth,
                            now_ms,
                        )
                        &&& final(self).state == (if old(self).state is Backfilling && cp_rb.index
                            + added@.len() >= old(self).saved_tip->0.index {
                            WorkerState::Streaming
                        } else {
                            old(self).state
                        })
                    }
                })
            }),
            // the pruning point moved
            input matches WorkerInput::PruningAdvanced { hash } ==> !(old(self).state is Stopped)
                ==> ({
                &&& !(old(self).state is Streaming) ==> final(self).state == old(self).state
                    && same_mirror(old(self).chain, final(self).chain) && final(self).filter == old(self).filter && out@ == Seq::<L1Event<H, T>>::empty()
                &&& old(self).chain matches Some(c) ==> old(self).state is Streaming ==> ({
                    let l = c.live();
                    &&& final(self).filter == old(self).filter
                    &&& c.root_spec().metadata.hash == hash ==> final(self).state == old(self).state
                        && same_mirror(old(self).chain, final(self).chain) && out@ == Seq::<
                        L1Event<H, T>,
                    >::empty()
                    &&& hash_position(l, hash) matches Some(j) ==> c.root_spec().metadata.hash
                        != hash ==> {
                        &&& out@ == seq![L1Event::<H, T>::Finalized(l[j])]
                        &&& final(self).state == old(self).state
                        &&& (final(self).chain matches Some(c2) && c2.live() == l.skip(j)
                            && c2.tip_spec() == c.tip_spec())
                    }
                    &&& c.root_spec().metadata.hash != hash && hash_position(l, hash) is None ==> {
                        &&& out@ == seq![L1Event::<H, T>::Fatal { reason: (FatalReason::HashNotFound(hash)) }]
                        &&& final(self).state is Stopped
                        &&& same_mirror(old(self).chain, final(self).chain)
                    }
                })
            }),
    {
        let mut out: Vec<L1Event<H, T>> = Vec::new();
        if self.state == WorkerState::Stopped {
            return out;
        }
        match input {
            WorkerInput::StopRequested => {
                self.state = WorkerState::Stopped;
                out
            },
            WorkerInput::ConnectSucceeded { start } => {
                match self.state {
                    WorkerState::Disconnected | WorkerState::Connecting
                        | WorkerState::Reconnecting => {
                        out.push(L1Event::Connected);
                        if self.chain.is_some() {
                            // the mirror survives a reconnect
                            self.state = WorkerState::Streaming;
                        } else {
                            match (self.saved_root, self.saved_tip) {
                                (Some(root), Some(_tip)) => {
                                    // resume: found the mirror at the saved
                                    // boundary and replay up to the saved tip
                                    self.chain = Some(VirtualChain::new(root));
                                    self.state = WorkerState::Backfilling;
                                },
                                _ => {
                                    self.chain = Some(VirtualChain::new(start));
                                    self.state = WorkerState::Streaming;
                                },
                            }
                        }
                    },
                    _ => {},
                }
                out
            },
            WorkerInput::ConnectFailed => {
                match self.state {
                    WorkerState::Disconnected | WorkerState::Connecting
                        | WorkerState::Reconnecting => {
                        if self.retry {
                            // another attempt follows
                            self.state = WorkerState::Connecting;
                        } else {
                            out.push(L1Event::Fatal { reason: FatalReason::StrategyExhausted });
                            self.state = WorkerState::Stopped;
                        }
                    },
                    _ => {},
                }
                out
            },
            WorkerInput::ConnectionLost => {
                match self.state {
                    WorkerState::Streaming | WorkerState::Backfilling => {
                        out.push(L1Event::Disconnected);
                        self.state = WorkerState::Reconnecting;
                    },
                    _ => {},
                }
                out
            },
            WorkerInput::ChainUpdate { removed, added } => {
                match self.state {
                    WorkerState::Streaming | WorkerState::Backfilling => {
                        let cut: Option<u64> = if self.state == WorkerState::Backfilling {
                            match self.saved_tip {
                                Some(t) => Some(t.index),
                                None => None,
                            }
                        } else {
                            None
                        };
                        if let Some(mut chain) = self.chain.take() {
                            if removed > 0 {
                                match chain.rollback(removed) {
                                    Err(e) => {
                                        out.push(L1Event::Fatal { reason: fatal_reason_of(e) });
                                        self.state = WorkerState::Stopped;
                                        self.chain = Some(chain);
                                        return out;
                                    },
                                    Ok((cp, depth)) => {
                                        let forward = self.filter.observe(depth, now_ms);
                                        let surfaced = match cut {
                                            Some(s) => cp.index > s,
                                            None => true,
                                        };
                                        if forward && surfaced {
                                            out.push(
                                                L1Event::Rollback {
                                                    checkpoint: cp,
                                                    blue_score_depth: depth,
                                                },
                                            );
                                        }
                                    },
                                }
                            }
                            proof {
                                assert(chain.live()[chain.live().len() - 1] == chain.tip_spec());
                            }
                            let ghost rb_out = out@;
                            let ghost added0 = added@;
                            let ghost base = chain.tip_spec().index as int;
                            apply_added(&mut chain, added, cut, &mut out);
                            proof {
                                assert(out@ =~= rb_out + added_events(added0, base, cut));
                            }
                            // leave backfill once the mirror has caught
                            // up with the saved tip
                            if self.state == WorkerState::Backfilling {
                                let tip_now = chain.tip();
                                match self.saved_tip {
                                    Some(t) => {
                                        if tip_now.index >= t.index {
                                            self.state = WorkerState::Streaming;
                                        }
                                    },
                                    None => {},
                                }
                            }
                            self.chain = Some(chain);
                        }
                    },
                    _ => {},
                }
                out
            },
            WorkerInput::PruningAdvanced { hash } => {
                match self.state {
                    WorkerState::Streaming => {
                        if let Some(mut chain) = self.chain.take() {
                            match chain.advance_root(&hash) {
                                Ok(None) => {},
                                Ok(Some(cp)) => {
                                    out.push(L1Event::Finalized(cp));
                                },
                                Err(e) => {
                                    out.push(L1Event::Fatal { reason: fatal_reason_of(e) });
                                    self.state = WorkerState::Stopped;
                                },
                            }
                            self.chain = Some(chain);
                        }
                    },
                    _ => {},
                }
                out
            },
        }
    }
}

} // verus!
