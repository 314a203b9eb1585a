use kite_mesh::config::KitedConfig;

#[test]
fn defaults() {
    let c = KitedConfig::defaults();
    assert!(c.identity.keypair_path.is_none());
    assert_eq!(c.network.listen_addr, "/ip4/0.0.0.0/tcp/0");
    assert!(c.network.enable_mdns);
    assert_eq!(c.storage.data_dir, "./kited-data");
    assert!(c.metrics.enabled);
    assert_eq!(c.metrics.addr, "127.0.0.1:9191");
}
