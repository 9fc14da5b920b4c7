//! The configuration the gateway is started with. It is loaded once and not
//! changed afterwards.

use crate::text::opt_text;
use vstd::prelude::*;

verus! {

/// The address the gateway listens on when none is configured.
pub open spec fn default_bind() -> Seq<char> {
    "0.0.0.0:8080"@
}

/// Seconds an outbound request may take when none are configured.
pub const DEFAULT_TIMEOUT: u64 = 60;

/// Seconds an outbound connection attempt may take when none are configured.
pub const DEFAULT_CONNECT_TIMEOUT: u64 = 10;

/// Seconds between keep-alive probes when none are configured.
pub const DEFAULT_TCP_KEEPALIVE: u64 = 90;

/// What the gateway is started with.
#[derive(Clone, Debug, PartialEq, Eq)]
pub struct Config {
    /// Whether the log is verbose. It changes nothing else.
    pub debug: bool,
    /// The socket address to listen on, as text.
    pub bind: String,
    /// Seconds an outbound request may take.
    pub timeout: u64,
    /// Seconds an outbound connection attempt may take.
    pub connect_timeout: u64,
    /// Seconds between keep-alive probes, outbound and on HTTP/2 connections.
    pub tcp_keepalive: Option<u64>,
    /// Path of the TLS certificate.
    pub tls_cert: Option<String>,
    /// Path of the TLS private key.
    pub tls_key: Option<String>,
    /// The key callers must present as their bearer token.
    pub api_key: Option<String>,
}

/// A configuration as plain mathematical values.
pub ghost struct ConfigView {
    pub debug: bool,
    pub bind: Seq<char>,
    pub timeout: u64,
    pub connect_timeout: u64,
    pub tcp_keepalive: Option<u64>,
    pub tls_cert: Option<Seq<char>>,
    pub tls_key: Option<Seq<char>>,
    pub api_key: Option<Seq<char>>,
}

/// The settings of the outbound HTTP client.
#[derive(Clone, Copy, Debug, PartialEq, Eq, Structural)]
pub struct HttpConfig {
    /// Seconds a request may take.
    pub timeout: u64,
    /// Seconds a connection attempt may take.
    pub connect_timeout: u64,
    /// Seconds between keep-alive probes on a connection.
    pub tcp_keepalive: Option<u64>,
}

impl View for Config {
    type V = ConfigView;

    open spec fn view(&self) -> ConfigView {
        ConfigView {
            debug: self.debug,
            bind: self.bind@,
            timeout: self.timeout,
            connect_timeout: self.connect_timeout,
            tcp_keepalive: self.tcp_keepalive,
            tls_cert: opt_text(self.tls_cert),
            tls_key: opt_text(self.tls_key),
            api_key: opt_text(self.api_key),
        }
    }
}

impl ConfigView {
    /// The configuration used when no file is given: plaintext on every
    /// interface, no API key, quiet log.
    pub open spec fn default_values() -> ConfigView {
        ConfigView {
            debug: false,
            bind: default_bind(),
            timeout: DEFAULT_TIMEOUT,
            connect_timeout: DEFAULT_CONNECT_TIMEOUT,
            tcp_keepalive: Some(DEFAULT_TCP_KEEPALIVE),
            tls_cert: None,
            tls_key: None,
            api_key: None,
        }
    }

    /// Whether TLS is configured: both the certificate and the key are given.
    /// One without the other counts as none.
    pub open spec fn tls_enabled(self) -> bool {
        self.tls_cert is Some && self.tls_key is Some
    }
}

impl Default for Config {
    fn default() -> (config: Config)
        ensures
            config@ == ConfigView::default_values(),
    {
        Config {
            debug: false,
            bind: "0.0.0.0:8080".to_owned(),
            timeout: DEFAULT_TIMEOUT,
            connect_timeout: DEFAULT_CONNECT_TIMEOUT,
            tcp_keepalive: Some(DEFAULT_TCP_KEEPALIVE),
            tls_cert: None,
            tls_key: None,
            api_key: None,
        }
    }
}

impl Config {
    /// Whether TLS is configured: both the certificate and the key are given.
    pub fn tls_enabled(&self) -> (enabled: bool)
        ensures
            enabled == self@.tls_enabled(),
    {
        self.tls_cert.is_some() && self.tls_key.is_some()
    }

    /// The settings of the outbound client, taken over from the configuration
    /// as they are.
    pub fn http_config(&self) -> (http: HttpConfig)
        ensures
            http.timeout == self.timeout,
            http.connect_timeout == self.connect_timeout,
            http.tcp_keepalive == self.tcp_keepalive,
    {
        HttpConfig {
            timeout: self.timeout,
            connect_timeout: self.connect_timeout,
            tcp_keepalive: self.tcp_keepalive,
        }
    }
}

/// Settles the configuration to start with. `loaded` is what the configuration
/// file held, or nothing where there is no such file: the gateway then starts
/// on the default values instead of failing.
pub fn init_config(loaded: Option<Config>) -> (config: Config)
    ensures
        match loaded {
            Some(file) => config == file,
            None => config@ == ConfigView::default_values(),
        },
{
    match loaded {
        Some(file) => file,
        None => Config::default(),
    }
}

} // verus!
