use l1_bridge::{
    AddedBlock, BlockHash, ChainBlockMetadata, Checkpoint, EventQueue, FatalReason, L1Event,
    Worker, WorkerInput, WorkerState,
};

type Ev = L1Event<u32, u32>;
type In = WorkerInput<u32, u32>;

fn hash(n: u64) -> BlockHash {
    BlockHash::new(n, 0, 0, 0)
}

fn meta(n: u64, blue_score: u64) -> ChainBlockMetadata {
    ChainBlockMetadata::new(hash(n), blue_score)
}

fn cp(index: u64, n: u64, blue_score: u64) -> Checkpoint {
    Checkpoint::new(index, meta(n, blue_score))
}

fn block(n: u64, blue_score: u64) -> AddedBlock<u32, u32> {
    AddedBlock {
        metadata: meta(n, blue_score),
        header: n as u32,
        accepted_transactions: vec![n as u32],
    }
}

fn fresh_streaming_worker() -> Worker {
    let mut worker = Worker::new(true, None, None, 0, 0);
    let out: Vec<Ev> = worker.handle(In::ConnectSucceeded { start: cp(0, 0, 0) }, 0);
    assert_eq!(out, vec![Ev::Connected]);
    assert_eq!(worker.state, WorkerState::Streaming);
    worker
}

#[test]
fn connect_emits_connected_and_streams() {
    fresh_streaming_worker();
}

#[test]
fn added_blocks_become_events_in_order() {
    let mut worker = fresh_streaming_worker();
    let out = worker.handle(
        In::ChainUpdate {
            removed: 0,
            added: vec![block(1, 10), block(2, 25)],
        },
        0,
    );
    assert_eq!(
        out,
        vec![
            Ev::ChainBlockAdded {
                checkpoint: cp(1, 1, 10),
                header: 1,
                accepted_transactions: vec![1],
            },
            Ev::ChainBlockAdded {
                checkpoint: cp(2, 2, 25),
                header: 2,
                accepted_transactions: vec![2],
            },
        ]
    );
}

#[test]
fn reorg_is_applied_and_reported() {
    let mut worker = fresh_streaming_worker();
    worker.handle(
        In::ChainUpdate {
            removed: 0,
            added: vec![block(1, 10), block(2, 25)],
        },
        0,
    );
    let out = worker.handle(
        In::ChainUpdate {
            removed: 1,
            added: vec![block(3, 30)],
        },
        0,
    );
    assert_eq!(
        out,
        vec![
            Ev::Rollback {
                checkpoint: cp(1, 1, 10),
                blue_score_depth: 15,
            },
            Ev::ChainBlockAdded {
                checkpoint: cp(2, 3, 30),
                header: 3,
                accepted_transactions: vec![3],
            },
        ]
    );
}

#[test]
fn shallow_reorgs_are_dampened_by_the_filter() {
    let mut worker = Worker::new(true, None, None, 1_000, 0);
    worker.handle::<u32, u32>(In::ConnectSucceeded { start: cp(0, 0, 100) }, 0);
    worker.handle(
        In::ChainUpdate {
            removed: 0,
            added: vec![block(1, 150), block(2, 200)],
        },
        0,
    );
    // depth 50 exceeds the empty threshold: reported
    let out = worker.handle(In::ChainUpdate { removed: 1, added: vec![block(3, 160)] }, 0);
    assert_eq!(
        out[0],
        Ev::Rollback {
            checkpoint: cp(1, 1, 150),
            blue_score_depth: 50,
        }
    );
    assert_eq!(out.len(), 2);
    // depth 10 sits under the raised bar: applied but not reported
    let out = worker.handle(In::ChainUpdate { removed: 1, added: vec![block(4, 170)] }, 0);
    assert_eq!(out.len(), 1);
    assert!(matches!(out[0], Ev::ChainBlockAdded { .. }));
}

#[test]
fn pruning_advance_emits_finalized_once() {
    let mut worker = fresh_streaming_worker();
    worker.handle(
        In::ChainUpdate {
            removed: 0,
            added: vec![block(1, 10), block(2, 25)],
        },
        0,
    );
    let out = worker.handle(In::PruningAdvanced { hash: hash(1) }, 0);
    assert_eq!(out, vec![Ev::Finalized(cp(1, 1, 10))]);
    // already there: a second advance to the same hash is a no-op
    let out = worker.handle(In::PruningAdvanced { hash: hash(1) }, 0);
    assert_eq!(out, vec![]);
}

#[test]
fn missing_pruning_hash_is_fatal_and_final() {
    let mut worker = fresh_streaming_worker();
    let mut queue: EventQueue<u32, u32> = EventQueue::new();
    worker.handle(
        In::ChainUpdate {
            removed: 0,
            added: vec![block(1, 10)],
        },
        0,
    );
    let out = worker.handle(In::PruningAdvanced { hash: hash(9) }, 0);
    assert_eq!(
        out,
        vec![Ev::Fatal {
            reason: FatalReason::HashNotFound(hash(9))
        }]
    );
    assert_eq!(worker.state, WorkerState::Stopped);
    for event in out {
        queue.push(event);
    }
    queue.close();
    // afterwards every input is absorbed in silence
    let out = worker.handle(In::ChainUpdate { removed: 0, added: vec![block(2, 20)] }, 0);
    assert_eq!(out, vec![]);
    let out = worker.handle::<u32, u32>(In::PruningAdvanced { hash: hash(1) }, 0);
    assert_eq!(out, vec![]);
    // exactly one fatal event was delivered, then nothing again
    assert_eq!(
        queue.pop(),
        Some(Ev::Fatal {
            reason: FatalReason::HashNotFound(hash(9))
        })
    );
    assert_eq!(queue.pop(), None);
}

#[test]
fn overdeep_rollback_request_is_fatal() {
    let mut worker = fresh_streaming_worker();
    worker.handle(
        In::ChainUpdate {
            removed: 0,
            added: vec![block(1, 10)],
        },
        0,
    );
    let out = worker.handle::<u32, u32>(In::ChainUpdate { removed: 5, added: vec![] }, 0);
    assert_eq!(
        out,
        vec![Ev::Fatal {
            reason: FatalReason::RollbackPastRoot {
                target_index: 0,
                root_index: 0,
            }
        }]
    );
    assert_eq!(worker.state, WorkerState::Stopped);
}

#[test]
fn connection_loss_reconnects_and_keeps_the_mirror() {
    let mut worker = fresh_streaming_worker();
    worker.handle(
        In::ChainUpdate {
            removed: 0,
            added: vec![block(1, 10)],
        },
        0,
    );
    let out = worker.handle::<u32, u32>(In::ConnectionLost, 0);
    assert_eq!(out, vec![Ev::Disconnected]);
    assert_eq!(worker.state, WorkerState::Reconnecting);
    let out = worker.handle::<u32, u32>(In::ConnectSucceeded { start: cp(0, 0, 0) }, 0);
    assert_eq!(out, vec![Ev::Connected]);
    assert_eq!(worker.state, WorkerState::Streaming);
    // the mirror survived the reconnect: the next pruning advance still
    // finds the block added before the drop
    let out = worker.handle::<u32, u32>(In::PruningAdvanced { hash: hash(1) }, 0);
    assert_eq!(out, vec![Ev::Finalized(cp(1, 1, 10))]);
}

#[test]
fn failed_connect_without_retry_gives_up() {
    let mut worker = Worker::new(false, None, None, 0, 0);
    let out = worker.handle::<u32, u32>(In::ConnectFailed, 0);
    assert_eq!(
        out,
        vec![Ev::Fatal {
            reason: FatalReason::StrategyExhausted
        }]
    );
    assert_eq!(worker.state, WorkerState::Stopped);
}

#[test]
fn failed_connect_with_retry_keeps_trying() {
    let mut worker = Worker::new(true, None, None, 0, 0);
    let out = worker.handle::<u32, u32>(In::ConnectFailed, 0);
    assert_eq!(out, vec![]);
    assert_eq!(worker.state, WorkerState::Connecting);
    // a later success still comes up streaming
    let out = worker.handle::<u32, u32>(In::ConnectSucceeded { start: cp(0, 0, 0) }, 0);
    assert_eq!(out, vec![Ev::Connected]);
    assert_eq!(worker.state, WorkerState::Streaming);
}

#[test]
fn backfill_replays_history_in_silence() {
    let mut worker = Worker::new(true, Some(cp(5, 5, 50)), Some(cp(7, 7, 70)), 0, 0);
    let out = worker.handle::<u32, u32>(In::ConnectSucceeded { start: cp(0, 0, 0) }, 0);
    assert_eq!(out, vec![Ev::Connected]);
    assert_eq!(worker.state, WorkerState::Backfilling);
    // history up to the saved tip surfaces nothing
    let out = worker.handle(
        In::ChainUpdate {
            removed: 0,
            added: vec![block(6, 60), block(7, 70)],
        },
        0,
    );
    assert_eq!(out, vec![]);
    assert_eq!(worker.state, WorkerState::Streaming);
    // from here on, new blocks surface as usual
    let out = worker.handle(In::ChainUpdate { removed: 0, added: vec![block(8, 80)] }, 0);
    assert_eq!(
        out,
        vec![Ev::ChainBlockAdded {
            checkpoint: cp(8, 8, 80),
            header: 8,
            accepted_transactions: vec![8],
        }]
    );
}

#[test]
fn backfill_surfaces_what_lies_beyond_the_saved_tip() {
    let mut worker = Worker::new(true, Some(cp(5, 5, 50)), Some(cp(6, 6, 60)), 0, 0);
    worker.handle::<u32, u32>(In::ConnectSucceeded { start: cp(0, 0, 0) }, 0);
    // one batch runs past the saved tip: only the excess surfaces
    let out = worker.handle(
        In::ChainUpdate {
            removed: 0,
            added: vec![block(6, 60), block(7, 70)],
        },
        0,
    );
    assert_eq!(
        out,
        vec![Ev::ChainBlockAdded {
            checkpoint: cp(7, 7, 70),
            header: 7,
            accepted_transactions: vec![7],
        }]
    );
    assert_eq!(worker.state, WorkerState::Streaming);
}

#[test]
fn stop_request_is_silent_and_final() {
    let mut worker = fresh_streaming_worker();
    let out = worker.handle::<u32, u32>(In::StopRequested, 0);
    assert_eq!(out, vec![]);
    assert_eq!(worker.state, WorkerState::Stopped);
    let out = worker.handle::<u32, u32>(In::StopRequested, 0);
    assert_eq!(out, vec![]);
    assert_eq!(worker.state, WorkerState::Stopped);
}
