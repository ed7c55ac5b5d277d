use vstd::prelude::*;

use crate::checkpoint::Checkpoint;

verus! {

/// Target network family of the L1 node.
#[derive(Clone, Copy, Debug, PartialEq, Eq, Structural)]
pub enum NetworkType {
    Mainnet,
    Testnet,
    Devnet,
    Simnet,
}

/// Full network identifier: a family plus an optional numeric suffix.
#[derive(Clone, Copy, Debug, PartialEq, Eq, Structural)]
pub struct NetworkId {
    pub network_type: NetworkType,
    pub suffix: Option<u32>,
}

impl NetworkId {
    /// Identifier for a network family, with no suffix.
    pub fn new(network_type: NetworkType) -> (n: NetworkId)
        ensures
            n == (NetworkId { network_type, suffix: None }),
    {
        NetworkId { network_type, suffix: None }
    }
}

/// How connection failures are handled: retry without end, or give up
/// after the first failed attempt.
#[derive(Clone, Copy, Debug, PartialEq, Eq, Structural)]
pub enum ConnectStrategy {
    Retry,
    Fallback,
}

/// Configuration for the bridge.
#[derive(Clone, Debug)]
pub struct L1BridgeConfig {
    /// Node endpoint, or nothing to let the resolver pick one.
    pub url: Option<String>,
    /// Target network.
    pub network_id: NetworkId,
    /// Connection timeout in milliseconds.
    pub connect_timeout_ms: u64,
    /// Reconnection strategy.
    pub connect_strategy: ConnectStrategy,
    /// Finalization boundary to resume from; set together with `tip` it
    /// makes the first connection backfill the span between them.
    pub root: Option<Checkpoint>,
    /// Last known tip to resume from.
    pub tip: Option<Checkpoint>,
    /// Reorg filter halving period in milliseconds; zero disables the
    /// filter.
    pub reorg_filter_halving_period_ms: u64,
}

impl Default for L1BridgeConfig {
    /// Defaults to mainnet with a ten-second timeout, endless
    /// reconnection, no resume state, and the reorg filter disabled.
    fn default() -> (c: Self)
        ensures
            c.url is None,
            c.network_id == (NetworkId { network_type: NetworkType::Mainnet, suffix: None }),
            c.connect_timeout_ms == 10000,
            c.connect_strategy is Retry,
            c.root is None,
            c.tip is None,
            c.reorg_filter_halving_period_ms == 0,
    {
        L1BridgeConfig {
            url: None,
            network_id: NetworkId::new(NetworkType::Mainnet),
            connect_timeout_ms: 10000,
            connect_strategy: ConnectStrategy::Retry,
            root: None,
            tip: None,
            reorg_filter_halving_period_ms: 0,
        }
    }
}

impl L1BridgeConfig {
    /// Sets the node endpoint.
    pub fn with_url(self, url: String) -> (c: Self)
        ensures
            c == (L1BridgeConfig { url: Some(url), ..self }),
    {
        let mut c = self;
        c.url = Some(url);
        c
    }

    /// Sets the target network by full identifier.
    pub fn with_network_id(self, network_id: NetworkId) -> (c: Self)
        ensures
            c == (L1BridgeConfig { network_id, ..self }),
    {
        let mut c = self;
        c.network_id = network_id;
        c
    }

    /// Sets the target network by family, with no suffix.
    pub fn with_network_type(self, network_type: NetworkType) -> (c: Self)
        ensures
            c == (L1BridgeConfig {
                network_id: NetworkId { network_type, suffix: None },
                ..self
            }),
    {
        let mut c = self;
        c.network_id = NetworkId::new(network_type);
        c
    }

    /// Sets the connection timeout in milliseconds.
    pub fn with_connect_timeout(self, timeout_ms: u64) -> (c: Self)
        ensures
            c == (L1BridgeConfig { connect_timeout_ms: timeout_ms, ..self }),
    {
        let mut c = self;
        c.connect_timeout_ms = timeout_ms;
        c
    }

    /// Sets the reconnection strategy.
    pub fn with_connect_strategy(self, strategy: ConnectStrategy) -> (c: Self)
        ensures
            c == (L1BridgeConfig { connect_strategy: strategy, ..self }),
    {
        let mut c = self;
        c.connect_strategy = strategy;
        c
    }

    /// Sets the finalization boundary to resume from.
    pub fn with_root(self, checkpoint: Option<Checkpoint>) -> (c: Self)
        ensures
            c == (L1BridgeConfig { root: checkpoint, ..self }),
    {
        let mut c = self;
        c.root = checkpoint;
        c
    }

    /// Sets the last known tip to resume from.
    pub fn with_tip(self, checkpoint: Option<Checkpoint>) -> (c: Self)
        ensures
            c == (L1BridgeConfig { tip: checkpoint, ..self }),
    {
        let mut c = self;
        c.tip = checkpoint;
        c
    }

    /// Sets the reorg filter halving period in milliseconds.
    pub fn with_reorg_filter_halving_period(self, period_ms: u64) -> (c: Self)
        ensures
            c == (L1BridgeConfig { reorg_filter_halving_period_ms: period_ms, ..self }),
    {
        let mut c = self;
        c.reorg_filter_halving_period_ms = period_ms;
        c
    }
}

} // verus!
