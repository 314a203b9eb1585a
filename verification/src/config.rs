//! Daemon configuration and its defaults. Paths are carried as text.

use vstd::prelude::*;

verus! {

/// Whole daemon configuration.
#[derive(Debug, Clone)]
pub struct KitedConfig {
    pub identity: IdentityConfig,
    pub network: NetworkConfig,
    pub storage: StorageConfig,
    pub metrics: MetricsConfig,
}

/// Where the identity keypair lives.
#[derive(Debug, Clone)]
pub struct IdentityConfig {
    /// If set, load keypair from this file; otherwise generate fresh.
    pub keypair_path: Option<String>,
}

/// Transport settings.
#[derive(Debug, Clone)]
pub struct NetworkConfig {
    /// Multiaddr to listen on. `/ip4/0.0.0.0/tcp/0` binds a random port.
    pub listen_addr: String,
    pub enable_mdns: bool,
}

/// Persistence settings.
#[derive(Debug, Clone)]
pub struct StorageConfig {
    /// Directory for SQLite receipts and any cached state.
    pub data_dir: String,
}

/// Metrics exporter settings.
#[derive(Debug, Clone)]
pub struct MetricsConfig {
    pub enabled: bool,
    pub addr: String,
}

impl Default for IdentityConfig {
    fn default() -> (c: IdentityConfig)
        ensures
            c.keypair_path is None,
    {
        IdentityConfig { keypair_path: None }
    }
}

impl Default for NetworkConfig {
    fn default() -> (c: NetworkConfig)
        ensures
            c.listen_addr@ == "/ip4/0.0.0.0/tcp/0"@,
            c.enable_mdns,
    {
        NetworkConfig { listen_addr: String::from_str("/ip4/0.0.0.0/tcp/0"), enable_mdns: true }
    }
}

impl Default for StorageConfig {
    fn default() -> (c: StorageConfig)
        ensures
            c.data_dir@ == "./kited-data"@,
    {
        StorageConfig { data_dir: String::from_str("./kited-data") }
    }
}

impl Default for MetricsConfig {
    fn default() -> (c: MetricsConfig)
        ensures
            c.enabled,
            c.addr@ == "127.0.0.1:9191"@,
    {
        MetricsConfig { enabled: true, addr: String::from_str("127.0.0.1:9191") }
    }
}

impl KitedConfig {
    /// The configuration used when no file is given: every section at its
    /// default.
    pub fn defaults() -> (c: KitedConfig)
        ensures
            c.identity.keypair_path is None,
            c.network.listen_addr@ == "/ip4/0.0.0.0/tcp/0"@,
            c.network.enable_mdns,
            c.storage.data_dir@ == "./kited-data"@,
            c.metrics.enabled,
            c.metrics.addr@ == "127.0.0.1:9191"@,
    {
        KitedConfig {
            identity: IdentityConfig::default(),
            network: NetworkConfig::default(),
            storage: StorageConfig::default(),
            metrics: MetricsConfig::default(),
        }
    }
}

} // verus!
