use l1_bridge::{
    BlockHash, ChainBlockMetadata, Checkpoint, ConnectStrategy, L1BridgeConfig, NetworkId,
    NetworkType,
};

#[test]
fn default_config_targets_mainnet_with_retry() {
    let c = L1BridgeConfig::default();
    assert_eq!(c.url, None);
    assert_eq!(c.network_id, NetworkId::new(NetworkType::Mainnet));
    assert_eq!(c.connect_timeout_ms, 10_000);
    assert_eq!(c.connect_strategy, ConnectStrategy::Retry);
    assert_eq!(c.root, None);
    assert_eq!(c.tip, None);
    assert_eq!(c.reorg_filter_halving_period_ms, 0);
}

#[test]
fn builders_set_each_field() {
    let root = Checkpoint::new(3, ChainBlockMetadata::new(BlockHash::new(1, 2, 3, 4), 30));
    let tip = Checkpoint::new(9, ChainBlockMetadata::new(BlockHash::new(5, 6, 7, 8), 90));
    let c = L1BridgeConfig::default()
        .with_url(String::from("ws://localhost:17110"))
        .with_network_type(NetworkType::Testnet)
        .with_connect_timeout(5_000)
        .with_connect_strategy(ConnectStrategy::Fallback)
        .with_root(Some(root))
        .with_tip(Some(tip))
        .with_reorg_filter_halving_period(60_000);
    assert_eq!(c.url.as_deref(), Some("ws://localhost:17110"));
    assert_eq!(c.network_id.network_type, NetworkType::Testnet);
    assert_eq!(c.network_id.suffix, None);
    assert_eq!(c.connect_timeout_ms, 5_000);
    assert_eq!(c.connect_strategy, ConnectStrategy::Fallback);
    assert_eq!(c.root, Some(root));
    assert_eq!(c.tip, Some(tip));
    assert_eq!(c.reorg_filter_halving_period_ms, 60_000);
    let c = c.with_network_id(NetworkId {
        network_type: NetworkType::Simnet,
        suffix: Some(11),
    });
    assert_eq!(c.network_id.suffix, Some(11));
}
