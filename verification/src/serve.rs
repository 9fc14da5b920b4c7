//! What starting the gateway amounts to: which listener is bound, how its
//! connections are configured, which endpoints are routed, and what is logged.

use crate::config::{Config, ConfigView, HttpConfig};
use crate::cors::CorsPolicy;
use vstd::prelude::*;
use vstd::string::StringExecFns;

verus! {

/// The listener the gateway binds.
#[derive(Clone, Debug, PartialEq, Eq)]
pub enum Listener {
    /// A listener that terminates TLS with the certificate and key at these
    /// paths.
    Tls { cert: String, key: String },
    /// A plaintext listener.
    Plain,
}

/// A listener as plain mathematical values.
pub ghost enum ListenerView {
    Tls { cert: Seq<char>, key: Seq<char> },
    Plain,
}

/// How connections are served, on either listener.
#[derive(Clone, Copy, Debug, PartialEq, Eq, Structural)]
pub struct Transport {
    /// HTTP/1.1: whether header names go out in the case they came in.
    pub preserve_header_case: bool,
    /// HTTP/2: whether a timer is installed, which keep-alive needs.
    pub http2_timer: bool,
    /// HTTP/2: seconds between keep-alive pings; none are sent without it.
    pub http2_keep_alive_interval: Option<u64>,
}

/// How much is logged.
#[derive(Clone, Copy, Debug, PartialEq, Eq, Structural)]
pub enum LogLevel {
    /// Everything down to debugging detail.
    Debug,
    /// Informational messages and above.
    Info,
}

/// The HTTP method an endpoint answers.
#[derive(Clone, Copy, Debug, PartialEq, Eq, Structural)]
pub enum Method {
    Get,
    Post,
}

/// An endpoint of the gateway.
#[derive(Clone, Copy, Debug, PartialEq, Eq, Structural)]
pub enum Endpoint {
    /// Lists the models that can be asked.
    ListModels,
    /// Completes a chat.
    ChatCompletions,
}

/// Everything that is decided before the gateway serves its first request.
#[derive(Clone, Debug, PartialEq, Eq)]
pub struct ServerPlan {
    /// The socket address to listen on, as text.
    pub bind: String,
    /// The listener to bind there.
    pub listener: Listener,
    /// How its connections are served.
    pub transport: Transport,
    /// The cross-origin policy laid over every endpoint.
    pub cors: CorsPolicy,
    /// The settings of the outbound client.
    pub http: HttpConfig,
    /// How much is logged.
    pub log_level: LogLevel,
}

impl View for Listener {
    type V = ListenerView;

    open spec fn view(&self) -> ListenerView {
        match self {
            Listener::Tls { cert, key } => ListenerView::Tls { cert: cert@, key: key@ },
            Listener::Plain => ListenerView::Plain,
        }
    }
}

impl ConfigView {
    /// The listener this configuration asks for: TLS where both the
    /// certificate and the key are given, plaintext in every other case.
    pub open spec fn listener(self) -> ListenerView {
        match (self.tls_cert, self.tls_key) {
            (Some(cert), Some(key)) => ListenerView::Tls { cert, key },
            _ => ListenerView::Plain,
        }
    }
}

impl Transport {
    /// The transport of a gateway whose keep-alive is `tcp_keepalive` seconds.
    pub open spec fn of(tcp_keepalive: Option<u64>) -> Transport {
        Transport {
            preserve_header_case: true,
            http2_timer: true,
            http2_keep_alive_interval: tcp_keepalive,
        }
    }

    /// The transport of a gateway whose keep-alive is `tcp_keepalive` seconds:
    /// header case is preserved, and HTTP/2 pings at that interval, or not at
    /// all where none is configured. The listener has no say in it.
    pub fn new(tcp_keepalive: Option<u64>) -> (transport: Transport)
        ensures
            transport == Transport::of(tcp_keepalive),
    {
        Transport {
            preserve_header_case: true,
            http2_timer: true,
            http2_keep_alive_interval: tcp_keepalive,
        }
    }
}

impl LogLevel {
    /// The level a `debug` flag asks for.
    pub open spec fn of(debug: bool) -> LogLevel {
        if debug {
            LogLevel::Debug
        } else {
            LogLevel::Info
        }
    }
}

/// The level the log is opened at: debugging detail where `debug` is set,
/// informational otherwise.
pub fn log_level(debug: bool) -> (level: LogLevel)
    ensures
        level == LogLevel::of(debug),
{
    if debug {
        LogLevel::Debug
    } else {
        LogLevel::Info
    }
}

impl Endpoint {
    /// The method this endpoint is routed by.
    pub open spec fn spec_method(self) -> Method {
        match self {
            Endpoint::ListModels => Method::Get,
            Endpoint::ChatCompletions => Method::Post,
        }
    }

    /// The path this endpoint is routed by.
    pub open spec fn spec_path(self) -> Seq<char> {
        match self {
            Endpoint::ListModels => "/v1/models"@,
            Endpoint::ChatCompletions => "/v1/chat/completions"@,
        }
    }

    /// The method this endpoint is routed by.
    pub fn method(&self) -> (method: Method)
        ensures
            method == self.spec_method(),
    {
        match self {
            Endpoint::ListModels => Method::Get,
            Endpoint::ChatCompletions => Method::Post,
        }
    }

    /// The path this endpoint is routed by.
    pub fn path(&self) -> (path: &'static str)
        ensures
            path@ == self.spec_path(),
    {
        match self {
            Endpoint::ListModels => "/v1/models",
            Endpoint::ChatCompletions => "/v1/chat/completions",
        }
    }

    /// The endpoints the router binds, each once.
    pub fn all() -> (endpoints: Vec<Endpoint>)
        ensures
            endpoints@ == seq![Endpoint::ListModels, Endpoint::ChatCompletions],
    {
        let mut endpoints = Vec::new();
        endpoints.push(Endpoint::ListModels);
        endpoints.push(Endpoint::ChatCompletions);
        endpoints
    }
}

impl Config {
    /// Chooses the listener: TLS where both the certificate and the key are
    /// configured, plaintext where either is missing. There is nothing in
    /// between, and a half-configured pair is no error.
    pub fn listener(&self) -> (listener: Listener)
        ensures
            listener@ == self@.listener(),
            listener is Tls <==> self@.tls_enabled(),
            listener is Plain <==> !self@.tls_enabled(),
    {
        match (&self.tls_cert, &self.tls_key) {
            (Some(cert), Some(key)) => Listener::Tls { cert: cert.clone(), key: key.clone() },
            _ => Listener::Plain,
        }
    }
}

impl ServerPlan {
    /// Whether this is the plan that `config` calls for.
    pub open spec fn follows(self, config: ConfigView) -> bool {
        &&& self.bind@ == config.bind
        &&& self.listener@ == config.listener()
        &&& self.transport == Transport::of(config.tcp_keepalive)
        &&& self.cors == CorsPolicy::mirror_everything()
        &&& self.http == (HttpConfig {
            timeout: config.timeout,
            connect_timeout: config.connect_timeout,
            tcp_keepalive: config.tcp_keepalive,
        })
        &&& self.log_level == LogLevel::of(config.debug)
    }

    /// Plans the start of the gateway from its configuration.
    pub fn new(config: &Config) -> (plan: ServerPlan)
        ensures
            plan.follows(config@),
    {
        ServerPlan {
            bind: config.bind.clone(),
            listener: config.listener(),
            transport: Transport::new(config.tcp_keepalive),
            cors: CorsPolicy::mirror_request(),
            http: config.http_config(),
            log_level: log_level(config.debug),
        }
    }
}

/// What the log says of the address: `Bind address: ` and the address.
pub open spec fn boot_text(bind: Seq<char>) -> Seq<char> {
    "Bind address: "@ + bind
}

/// The line logged once the configuration is settled.
pub fn boot_message(config: &Config) -> (message: String)
    ensures
        message@ == boot_text(config.bind@),
{
    "Bind address: ".to_owned().concat(config.bind.as_str())
}

} // verus!
