//! In-process mirror of an L1 ledger's selected-parent chain.
//!
//! The mirror keeps a linear run of blocks between a finalization boundary
//! (the root) and the most recently processed block (the tip), absorbs
//! reorganizations by rolling the tip back, advances the root as history
//! is finalized, dampens noisy shallow reorgs, and hands the resulting
//! events to consumers through an ordered queue. A state machine drives
//! these pieces from connection-lifecycle and chain-change inputs; the
//! network transport itself stays outside this crate.

mod chain_block;
mod chain_block_metadata;
mod checkpoint;
mod config;
mod error;
mod event;
mod queue;
mod reorg_filter;
mod virtual_chain;
mod worker;

pub use chain_block::ChainBlock;
pub use chain_block_metadata::{BlockHash, ChainBlockMetadata};
pub use checkpoint::Checkpoint;
pub use config::{ConnectStrategy, L1BridgeConfig, NetworkId, NetworkType};
pub use error::Error;
pub use event::{FatalReason, L1Event};
pub use queue::EventQueue;
pub use reorg_filter::ReorgFilter;
pub use virtual_chain::VirtualChain;
pub use worker::{AddedBlock, Worker, WorkerInput, WorkerState};
