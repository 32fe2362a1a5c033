use std::sync::Arc;
use std::time::Duration;

use vstd::prelude::*;

use crate::components::Components;
use crate::error::{outcome, ErrorView, TransportServerError, TransportServerResult};
use crate::files::{may_answer, probe};
use crate::outside::seconds;
use crate::text::{decimal, decimal_text, opt_text, or_default, text_or};

verus! {

/// Where streamable HTTP is served unless the options say otherwise.
pub const DEFAULT_STREAMABLE_HTTP_ENDPOINT: &'static str = "/mcp";

/// Where server-sent events are served unless the options say otherwise.
pub const DEFAULT_SSE_ENDPOINT: &'static str = "/sse";

/// Where messages of an SSE client arrive unless the options say otherwise.
pub const DEFAULT_MESSAGES_ENDPOINT: &'static str = "/messages";

/// Seconds between two pings of a client unless the options say otherwise.
pub const DEFAULT_CLIENT_PING_INTERVAL_SECS: u64 = 12;

/// What a server is configured with.
pub struct HyperServerOptions<C: Components> {
    /// Host name or IP address to bind to (default: "127.0.0.1").
    pub host: String,
    /// Port to bind to (default: 8080).
    pub port: u16,
    /// Generates session ids. Without one, session ids are random UUIDs.
    pub session_id_generator: Option<Arc<C::SessionIdGenerator>>,
    /// Path of the streamable HTTP endpoint (default: `/mcp`).
    pub custom_streamable_http_endpoint: Option<String>,
    /// Settings shared by all transports of the server.
    pub transport_options: Arc<C::TransportOptions>,
    /// Event store; with one, clients can reconnect and resume messages.
    pub event_store: Option<Arc<C::EventStore>>,
    /// Task store for tasks that this server executes.
    pub task_store: Option<Arc<C::ServerTaskStore>>,
    /// Task store for tasks that clients execute for this server.
    pub client_task_store: Option<Arc<C::ClientTaskStore>>,
    /// Whether streamable HTTP answers with JSON instead of an SSE stream
    /// (default: no).
    pub enable_json_response: Option<bool>,
    /// Time between two pings that detect disconnected clients (default: 12 s).
    pub ping_interval: Duration,
    /// Whether connections are encrypted.
    pub enable_ssl: bool,
    /// Path to the certificate file. Required if `enable_ssl` is set.
    pub ssl_cert_path: Option<String>,
    /// Path to the private key file. Required if `enable_ssl` is set.
    pub ssl_key_path: Option<String>,
    /// Host header values that are let through; all of them, if not specified.
    pub allowed_hosts: Option<Vec<String>>,
    /// Origin header values that are let through; all of them, if not specified.
    pub allowed_origins: Option<Vec<String>>,
    /// Whether to protect against DNS rebinding, which needs allowed hosts or
    /// allowed origins to be configured (default: no).
    pub dns_rebinding_protection: bool,
    /// Whether the SSE transport is supported too (default: yes).
    pub sse_support: bool,
    /// Path of the SSE endpoint (default: `/sse`).
    pub custom_sse_endpoint: Option<String>,
    /// Path at which SSE clients post messages (default: `/messages`).
    pub custom_messages_endpoint: Option<String>,
    /// Authentication provider that protects the server.
    pub auth: Option<Arc<C::AuthProvider>>,
    /// Path of the health endpoint; there is none, if not specified.
    pub health_endpoint: Option<String>,
    /// Answers requests to the health endpoint.
    pub health_handler: Option<Arc<C::HealthHandler>>,
    /// Observer of incoming and outgoing messages.
    pub message_observer: Option<Arc<C::MessageObserver>>,
    /// Whether the server shuts down gracefully on SIGTERM and SIGINT
    /// (default: yes). Switch it off to manage shutdown elsewhere.
    pub enable_signal_handler: bool,
}

/// The scheme of the server's URLs.
pub open spec fn scheme(enable_ssl: bool) -> Seq<char> {
    if enable_ssl {
        "https"@
    } else {
        "http"@
    }
}

/// The scheme of the server's URLs.
pub fn scheme_text(enable_ssl: bool) -> (r: &'static str)
    ensures
        r@ == scheme(enable_ssl),
        enable_ssl ==> r@ == "https"@,
        !enable_ssl ==> r@ == "http"@,
{
    if enable_ssl {
        "https"
    } else {
        "http"
    }
}

impl<C: Components> HyperServerOptions<C> {
    /// Scheme, host and port, as in `https://127.0.0.1:8081`.
    pub open spec fn base(&self) -> Seq<char> {
        scheme(self.enable_ssl) + "://"@ + self.host@ + ":"@ + decimal(self.port as nat)
    }

    /// The path at which streamable HTTP is served.
    pub open spec fn streamable_http_path(&self) -> Seq<char> {
        text_or(self.custom_streamable_http_endpoint, "/mcp"@)
    }

    /// The path at which server-sent events are served.
    pub open spec fn sse_path(&self) -> Seq<char> {
        text_or(self.custom_sse_endpoint, "/sse"@)
    }

    /// The path at which messages of SSE clients arrive.
    pub open spec fn messages_path(&self) -> Seq<char> {
        text_or(self.custom_messages_endpoint, "/messages"@)
    }

    /// Whether requests are checked against DNS rebinding: it was asked for, and
    /// there is a list to check against.
    pub open spec fn dns_protected(&self) -> bool {
        self.dns_rebinding_protection && (self.allowed_hosts is Some
            || self.allowed_origins is Some)
    }

    /// Whether both files that SSL needs are named.
    pub open spec fn ssl_paths_given(&self) -> bool {
        self.ssl_cert_path is Some && self.ssl_key_path is Some
    }

    /// What is to be said of the options, given whether the certificate path and
    /// the key path name existing files.
    pub open spec fn validation(&self, cert_is_file: bool, key_is_file: bool) -> Result<
        (),
        ErrorView,
    > {
        if !self.enable_ssl {
            Ok(())
        } else if !self.ssl_paths_given() {
            Err(
                ErrorView::InvalidServerOptions(
                    "Both 'ssl_cert_path' and 'ssl_key_path' must be provided when SSL is enabled."@,
                ),
            )
        } else if !cert_is_file {
            Err(
                ErrorView::InvalidServerOptions(
                    "'ssl_cert_path' does not point to a valid or existing file."@,
                ),
            )
        } else if !key_is_file {
            Err(
                ErrorView::InvalidServerOptions(
                    "'ssl_key_path' does not point to a valid or existing file."@,
                ),
            )
        } else {
            Ok(())
        }
    }

    /// Validates the options, given whether the certificate path and the key
    /// path name existing files.
    pub fn validate_probed(&self, cert_is_file: bool, key_is_file: bool) -> (r:
        TransportServerResult<()>)
        ensures
            outcome(r) == self.validation(cert_is_file, key_is_file),
            r is Ok <==> (self.enable_ssl ==> self.ssl_cert_path is Some && self.ssl_key_path is Some
                && cert_is_file && key_is_file),
            r matches Err(error) ==> error matches TransportServerError::InvalidServerOptions(text)
                && text@ == (if self.ssl_cert_path is None || self.ssl_key_path is None {
                "Both 'ssl_cert_path' and 'ssl_key_path' must be provided when SSL is enabled."@
            } else if !cert_is_file {
                "'ssl_cert_path' does not point to a valid or existing file."@
            } else {
                "'ssl_key_path' does not point to a valid or existing file."@
            }),
    {
        if self.enable_ssl {
            if self.ssl_cert_path.is_none() || self.ssl_key_path.is_none() {
                return Err(
                    TransportServerError::InvalidServerOptions(
                        "Both 'ssl_cert_path' and 'ssl_key_path' must be provided when SSL is enabled.".to_string(),
                    ),
                );
            }
            if !cert_is_file {
                return Err(
                    TransportServerError::InvalidServerOptions(
                        "'ssl_cert_path' does not point to a valid or existing file.".to_string(),
                    ),
                );
            }
            if !key_is_file {
                return Err(
                    TransportServerError::InvalidServerOptions(
                        "'ssl_key_path' does not point to a valid or existing file.".to_string(),
                    ),
                );
            }
        }
        Ok(())
    }

    /// The certificate path and the key path, where validation depends on whether
    /// they name existing files: SSL is enabled, and both are given.
    pub fn files_to_probe(&self) -> (r: Option<(&str, &str)>)
        ensures
            match r {
                Some((cert_path, key_path)) => self.enable_ssl && opt_text(self.ssl_cert_path)
                    == Some(cert_path@) && opt_text(self.ssl_key_path) == Some(key_path@),
                None => !(self.enable_ssl && self.ssl_paths_given()),
            },
            r is Some <==> self.enable_ssl && self.ssl_cert_path is Some && self.ssl_key_path is Some,
            r matches Some((cert_path, key_path)) ==> cert_path@ == self.ssl_cert_path->0@
                && key_path@ == self.ssl_key_path->0@,
    {
        if !self.enable_ssl {
            return None;
        }
        match (&self.ssl_cert_path, &self.ssl_key_path) {
            (Some(cert_path), Some(key_path)) => Some((cert_path.as_str(), key_path.as_str())),
            _ => None,
        }
    }

    /// Whether `verdict` is what validation may come to: the file system is asked
    /// about the certificate path, and then, if that names a file, about the key
    /// path, and its answers decide. Where SSL is not enabled, or a path is
    /// missing, it is not asked.
    pub open spec fn may_validate_as(&self, verdict: Result<(), ErrorView>) -> bool {
        if self.enable_ssl && self.ssl_paths_given() {
            exists|cert_is_file: bool, key_is_file: bool|
                {
                    &&& verdict == #[trigger] self.validation(cert_is_file, key_is_file)
                    &&& may_answer(text_or(self.ssl_cert_path, ""@), cert_is_file)
                    &&& cert_is_file ==> may_answer(text_or(self.ssl_key_path, ""@), key_is_file)
                }
        } else {
            verdict == self.validation(false, false)
        }
    }

    /// Validates the options: where SSL is enabled, both paths must be given and
    /// name existing files. Whether they do is asked of the file system, and its
    /// answers decide as in `validate_probed`.
    pub fn validate(&self) -> (r: TransportServerResult<()>)
        ensures
            self.may_validate_as(outcome(r)),
            !self.enable_ssl ==> r is Ok,
            r is Ok && self.enable_ssl ==> self.ssl_cert_path is Some && self.ssl_key_path is Some
                && may_answer(self.ssl_cert_path->0@, true) && may_answer(
                self.ssl_key_path->0@,
                true,
            ),
            r matches Err(error) ==> error matches TransportServerError::InvalidServerOptions(text)
                && {
                ||| (self.ssl_cert_path is None || self.ssl_key_path is None) && text@
                    == "Both 'ssl_cert_path' and 'ssl_key_path' must be provided when SSL is enabled."@
                ||| self.ssl_cert_path is Some && self.ssl_key_path is Some && may_answer(
                    self.ssl_cert_path->0@,
                    false,
                ) && text@ == "'ssl_cert_path' does not point to a valid or existing file."@
                ||| self.ssl_cert_path is Some && self.ssl_key_path is Some && may_answer(
                    self.ssl_cert_path->0@,
                    true,
                ) && may_answer(self.ssl_key_path->0@, false) && text@
                    == "'ssl_key_path' does not point to a valid or existing file."@
            },
    {
        let mut cert_is_file: bool = false;
        let mut key_is_file: bool = false;
        if let Some((cert_path, key_path)) = self.files_to_probe() {
            cert_is_file = probe(cert_path);
            key_is_file = cert_is_file && probe(key_path);
        }
        let r = self.validate_probed(cert_is_file, key_is_file);
        assert(outcome(r) == self.validation(cert_is_file, key_is_file));
        r
    }

    /// Scheme, host and port of the server.
    pub fn base_url(&self) -> (r: String)
        ensures
            r@ == self.base(),
            r@ == (if self.enable_ssl {
                "https"@
            } else {
                "http"@
            }) + "://"@ + self.host@ + ":"@ + decimal(self.port as nat),
    {
        let mut url = scheme_text(self.enable_ssl).to_string();
        url.append("://");
        url.append(self.host.as_str());
        url.append(":");
        let port = decimal_text(self.port);
        url.append(port.as_str());
        url
    }

    /// URL of the streamable HTTP endpoint.
    pub fn streamable_http_url(&self) -> (r: String)
        ensures
            r@ == self.base() + self.streamable_http_path(),
            r@ == (if self.enable_ssl {
                "https"@
            } else {
                "http"@
            }) + "://"@ + self.host@ + ":"@ + decimal(self.port as nat) + (match self.custom_streamable_http_endpoint {
                Some(path) => path@,
                None => "/mcp"@,
            }),
    {
        let mut url = self.base_url();
        url.append(self.streamable_http_endpoint());
        url
    }

    /// URL of the SSE endpoint.
    pub fn sse_url(&self) -> (r: String)
        ensures
            r@ == self.base() + self.sse_path(),
            r@ == (if self.enable_ssl {
                "https"@
            } else {
                "http"@
            }) + "://"@ + self.host@ + ":"@ + decimal(self.port as nat) + (match self.custom_sse_endpoint {
                Some(path) => path@,
                None => "/sse"@,
            }),
    {
        let mut url = self.base_url();
        url.append(self.sse_endpoint());
        url
    }

    /// URL to which SSE clients post messages.
    pub fn sse_message_url(&self) -> (r: String)
        ensures
            r@ == self.base() + self.messages_path(),
            r@ == (if self.enable_ssl {
                "https"@
            } else {
                "http"@
            }) + "://"@ + self.host@ + ":"@ + decimal(self.port as nat) + (match self.custom_messages_endpoint {
                Some(path) => path@,
                None => "/messages"@,
            }),
    {
        let mut url = self.base_url();
        url.append(self.sse_messages_endpoint());
        url
    }

    /// Path of the SSE endpoint.
    pub fn sse_endpoint(&self) -> (r: &str)
        ensures
            r@ == self.sse_path(),
            r@ == (match self.custom_sse_endpoint {
                Some(path) => path@,
                None => "/sse"@,
            }),
    {
        or_default(&self.custom_sse_endpoint, DEFAULT_SSE_ENDPOINT)
    }

    /// Path to which SSE clients post messages.
    pub fn sse_messages_endpoint(&self) -> (r: &str)
        ensures
            r@ == self.messages_path(),
            r@ == (match self.custom_messages_endpoint {
                Some(path) => path@,
                None => "/messages"@,
            }),
    {
        or_default(&self.custom_messages_endpoint, DEFAULT_MESSAGES_ENDPOINT)
    }

    /// Path of the streamable HTTP endpoint.
    pub fn streamable_http_endpoint(&self) -> (r: &str)
        ensures
            r@ == self.streamable_http_path(),
            r@ == (match self.custom_streamable_http_endpoint {
                Some(path) => path@,
                None => "/mcp"@,
            }),
    {
        or_default(&self.custom_streamable_http_endpoint, DEFAULT_STREAMABLE_HTTP_ENDPOINT)
    }

    /// Whether requests are to be checked against DNS rebinding.
    pub fn needs_dns_protection(&self) -> (r: bool)
        ensures
            r == self.dns_protected(),
            r == (self.dns_rebinding_protection && (self.allowed_hosts is Some
                || self.allowed_origins is Some)),
    {
        self.dns_rebinding_protection && (self.allowed_hosts.is_some()
            || self.allowed_origins.is_some())
    }

    /// The options of a server that was configured with nothing but its
    /// transport options.
    pub open spec fn is_default(&self) -> bool {
        &&& self.host@ == "127.0.0.1"@
        &&& self.port == 8080
        &&& self.session_id_generator is None
        &&& self.custom_streamable_http_endpoint is None
        &&& self.event_store is None
        &&& self.task_store is None
        &&& self.client_task_store is None
        &&& self.enable_json_response is None
        &&& self.ping_interval == seconds(12)
        &&& !self.enable_ssl
        &&& self.ssl_cert_path is None
        &&& self.ssl_key_path is None
        &&& self.allowed_hosts is None
        &&& self.allowed_origins is None
        &&& !self.dns_rebinding_protection
        &&& self.sse_support
        &&& self.custom_sse_endpoint is None
        &&& self.custom_messages_endpoint is None
        &&& self.auth is None
        &&& self.health_endpoint is None
        &&& self.health_handler is None
        &&& self.message_observer is None
        &&& self.enable_signal_handler
    }
}

impl<C: Components> Default for HyperServerOptions<C> {
    /// 127.0.0.1, port 8080, the default endpoints with SSE support, a ping
    /// every 12 seconds, shutdown on signals, and nothing else.
    fn default() -> (r: Self)
        ensures
            r.is_default(),
            call_ensures(C::TransportOptions::default, (), *r.transport_options),
    {
        HyperServerOptions {
            host: "127.0.0.1".to_string(),
            port: 8080,
            session_id_generator: None,
            custom_streamable_http_endpoint: None,
            transport_options: Default::default(),
            event_store: None,
            task_store: None,
            client_task_store: None,
            enable_json_response: None,
            ping_interval: Duration::from_secs(DEFAULT_CLIENT_PING_INTERVAL_SECS),
            enable_ssl: false,
            ssl_cert_path: None,
            ssl_key_path: None,
            allowed_hosts: None,
            allowed_origins: None,
            dns_rebinding_protection: false,
            sse_support: true,
            custom_sse_endpoint: None,
            custom_messages_endpoint: None,
            auth: None,
            health_endpoint: None,
            health_handler: None,
            message_observer: None,
            enable_signal_handler: true,
        }
    }
}

} // verus!
