//! The settings that the server is started with.

use vstd::prelude::*;

verus! {

/// Settings of the whole server.
#[derive(Debug, Clone)]
pub struct ServerConfig {
    /// Where to listen, as `host:port`.
    pub listen_address: String,
    /// The most connections served at one time.
    pub max_connections: usize,
    /// Settings of the telemetry export.
    pub metrics: MetricsConfig,
    /// Settings of the integer codec.
    pub varint: VarIntConfig,
}

/// Settings of the telemetry export. The library only carries them.
#[derive(Debug, Clone)]
pub struct MetricsConfig {
    /// Whether counters are exported at all.
    pub enabled: bool,
    /// Where they are pushed to.
    pub endpoint: String,
    /// Seconds between two exports.
    pub interval_secs: u64,
}

/// Settings of the integer codec.
#[derive(Debug, Clone)]
pub struct VarIntConfig {
    /// Entries reserved for the encode cache.
    pub cache_size: usize,
    /// Values written per batch.
    pub batch_size: usize,
}

impl Default for ServerConfig {
    fn default() -> (config: Self)
        ensures
            config.listen_address@ == "127.0.0.1:25565"@,
            config.max_connections == 1000,
            config.metrics.enabled,
            config.metrics.endpoint@ == "http://localhost:9091"@,
            config.metrics.interval_secs == 60,
            config.varint.cache_size == 1024,
            config.varint.batch_size == 100,
    {
        ServerConfig {
            listen_address: "127.0.0.1:25565".to_owned(),
            max_connections: 1000,
            metrics: MetricsConfig::default(),
            varint: VarIntConfig::default(),
        }
    }
}

impl Default for VarIntConfig {
    fn default() -> (config: Self)
        ensures
            config.cache_size == 1024,
            config.batch_size == 100,
    {
        VarIntConfig { cache_size: 1024, batch_size: 100 }
    }
}

impl Default for MetricsConfig {
    fn default() -> (config: Self)
        ensures
            config.enabled,
            config.endpoint@ == "http://localhost:9091"@,
            config.interval_secs == 60,
    {
        MetricsConfig {
            enabled: true,
            endpoint: "http://localhost:9091".to_owned(),
            interval_secs: 60,
        }
    }
}

} // verus!
