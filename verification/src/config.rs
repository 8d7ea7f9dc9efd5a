//! Application configuration.
//!
//! Three sections — the proxy listener, the overlay client's data
//! directory, and logging — each with fixed defaults. Reading and
//! writing the configuration file is the surrounding process's
//! business; the structure and the defaults are laid down here.

use vstd::prelude::*;

verus! {

/// Settings of the proxy listener.
pub struct ProxyConfig {
    /// Address the listener binds.
    pub listen_addr: String,
    /// Port the listener binds.
    pub listen_port: u16,
    /// Whether IP-literal destinations are rejected, forcing name
    /// resolution through the overlay.
    pub dns_reject_ip: bool,
}

/// Settings of the overlay client.
pub struct TorConfig {
    /// Base directory for the overlay client's cache and state.
    pub data_dir: String,
}

/// Settings of process logging.
pub struct LoggingConfig {
    /// Log level filter.
    pub level: String,
    /// Directory the log files go to.
    pub log_dir: String,
    /// Language tag for log and interface messages; `None` selects
    /// the default language.
    pub language: Option<String>,
}

/// The whole configuration.
pub struct IronCloakConfig {
    pub proxy: ProxyConfig,
    pub tor: TorConfig,
    pub logging: LoggingConfig,
}

impl Default for ProxyConfig {
    /// Listens on the loopback address at 9150 and rejects IP-literal
    /// destinations.
    fn default() -> (r: Self)
        ensures
            r.listen_addr@ == "127.0.0.1"@,
            r.listen_port == 9150,
            r.dns_reject_ip == true,
    {
        ProxyConfig {
            listen_addr: String::from_str("127.0.0.1"),
            listen_port: 9150,
            dns_reject_ip: true,
        }
    }
}

impl Default for TorConfig {
    /// Keeps the overlay client's data under `./data/arti`.
    fn default() -> (r: Self)
        ensures
            r.data_dir@ == "./data/arti"@,
    {
        TorConfig { data_dir: String::from_str("./data/arti") }
    }
}

impl Default for LoggingConfig {
    /// Logs at `info` into `./logs`, in the default language.
    fn default() -> (r: Self)
        ensures
            r.level@ == "info"@,
            r.log_dir@ == "./logs"@,
            r.language is None,
    {
        LoggingConfig {
            level: String::from_str("info"),
            log_dir: String::from_str("./logs"),
            language: None,
        }
    }
}

impl Default for IronCloakConfig {
    /// Every section at its defaults.
    fn default() -> (r: Self)
        ensures
            r.proxy.listen_addr@ == "127.0.0.1"@,
            r.proxy.listen_port == 9150,
            r.proxy.dns_reject_ip == true,
            r.tor.data_dir@ == "./data/arti"@,
            r.logging.level@ == "info"@,
            r.logging.log_dir@ == "./logs"@,
            r.logging.language is None,
    {
        IronCloakConfig {
            proxy: ProxyConfig::default(),
            tor: TorConfig::default(),
            logging: LoggingConfig::default(),
        }
    }
}

} // verus!
