use std::sync::Arc;
use std::time::Duration;

use axum::routing::MethodRouter;
use axum_server::Handle;
use rust_mcp_schema::InitializeResult;
use vstd::prelude::*;

use crate::components::Components;
use crate::error::{TransportServerError, TransportServerResult};
use crate::options::{scheme, scheme_text, HyperServerOptions};
use crate::outside::{clone_handle, new_handle, seconds};

verus! {

/// Seconds that open connections are given to end once a signal has arrived.
pub const GRACEFUL_SHUTDOWN_TIMEOUT_SECS: u64 = 5;

/// What the server is able to do, as it was built.
#[derive(Clone, Copy)]
pub struct Features {
    /// Connections can be encrypted.
    pub ssl: bool,
    /// Server-sent events can be served.
    pub sse: bool,
}

/// Where the ids of new sessions come from.
pub enum SessionIdSource<C: Components> {
    /// The generator that the options named.
    Custom(Arc<C::SessionIdGenerator>),
    /// Random UUIDs.
    Uuid,
}

/// What all sessions of a server share.
pub struct McpAppState<C: Components> {
    pub session_store: Arc<C::SessionStore>,
    pub id_generator: SessionIdSource<C>,
    /// Stream ids begin with this text.
    pub stream_id_prefix: String,
    pub server_details: Arc<InitializeResult>,
    pub handler: Arc<C::ServerHandler>,
    pub ping_interval: Duration,
    pub transport_options: Arc<C::TransportOptions>,
    pub enable_json_response: bool,
    pub event_store: Option<Arc<C::EventStore>>,
    pub task_store: Option<Arc<C::ServerTaskStore>>,
    pub client_task_store: Option<Arc<C::ClientTaskStore>>,
    pub message_observer: Option<Arc<C::MessageObserver>>,
}

/// A check that every request passes before it is handled.
pub enum Middleware<C: Components> {
    /// Refuses requests whose host or origin is not on the list.
    DnsRebindProtector {
        allowed_hosts: Option<Vec<String>>,
        allowed_origins: Option<Vec<String>>,
    },
    /// Refuses requests that the provider does not authenticate.
    Auth(Arc<C::AuthProvider>),
}

/// How requests are handled: who authenticates them, the checks that they pass,
/// first to last, and who answers health checks.
pub struct McpHttpHandler<C: Components> {
    pub auth: Option<Arc<C::AuthProvider>>,
    pub middlewares: Vec<Middleware<C>>,
    pub health_handler: Option<Arc<C::HealthHandler>>,
}

/// A route that was added to those of the protocol.
pub struct Route {
    pub path: &'static str,
    pub handlers: MethodRouter,
}

/// What the web application of a server consists of.
pub struct App<C: Components> {
    /// Handles the requests to the endpoints of the protocol.
    pub http_handler: McpHttpHandler<C>,
    /// The routes that were added, first to last.
    pub routes: Vec<Route>,
}

/// A server that is ready to be started.
pub struct HyperServer<C: Components> {
    pub app: App<C>,
    pub state: Arc<McpAppState<C>>,
    pub options: HyperServerOptions<C>,
    pub handle: Handle,
    pub features: Features,
}

/// The checks that requests pass under the given options: first the one against
/// DNS rebinding, then authentication, each only where it is configured.
pub open spec fn middleware_chain<C: Components>(options: HyperServerOptions<C>) -> Seq<
    Middleware<C>,
> {
    let dns = if options.dns_protected() {
        seq![
            Middleware::<C>::DnsRebindProtector {
                allowed_hosts: options.allowed_hosts,
                allowed_origins: options.allowed_origins,
            },
        ]
    } else {
        seq![]
    };
    match options.auth {
        Some(provider) => dns.push(Middleware::Auth(provider)),
        None => dns,
    }
}

/// The options that a server keeps: those it was made with, except for what has
/// moved into the state of the server and into its request handler.
pub open spec fn kept_options<C: Components>(options: HyperServerOptions<C>) -> HyperServerOptions<
    C,
> {
    HyperServerOptions {
        session_id_generator: None,
        task_store: None,
        client_task_store: None,
        message_observer: None,
        auth: None,
        allowed_hosts: if options.dns_protected() {
            None
        } else {
            options.allowed_hosts
        },
        allowed_origins: if options.dns_protected() {
            None
        } else {
            options.allowed_origins
        },
        ..options
    }
}

impl<C: Components> McpAppState<C> {
    /// Whether this is what the sessions of a server share that was made with the
    /// given options.
    pub open spec fn set_up_by(&self, options: HyperServerOptions<C>) -> bool {
        &&& self.id_generator == match options.session_id_generator {
            Some(generator) => SessionIdSource::<C>::Custom(generator),
            None => SessionIdSource::<C>::Uuid,
        }
        &&& self.stream_id_prefix@ == "s_"@
        &&& self.ping_interval == options.ping_interval
        &&& self.transport_options == options.transport_options
        &&& self.enable_json_response == (options.enable_json_response == Some(true))
        &&& self.event_store == options.event_store
        &&& self.task_store == options.task_store
        &&& self.client_task_store == options.client_task_store
        &&& self.message_observer == options.message_observer
    }
}

pub(crate) fn share<T: ?Sized>(part: &Option<Arc<T>>) -> (r: Option<Arc<T>>)
    ensures
        r == *part,
{
    match part {
        Some(p) => Some(Arc::clone(p)),
        None => None,
    }
}

impl<C: Components> HyperServer<C> {
    /// Makes a server out of its details, its handler and its options. Its
    /// sessions will be held by a store that is made for it.
    pub fn new(
        server_details: InitializeResult,
        handler: Arc<C::ServerHandler>,
        server_options: HyperServerOptions<C>,
        features: Features,
    ) -> (server: Self)
        ensures
            server.state.set_up_by(server_options),
            server.state.ping_interval == server_options.ping_interval,
            server.state.transport_options == server_options.transport_options,
            server.state.event_store == server_options.event_store,
            server.state.task_store == server_options.task_store,
            server.state.client_task_store == server_options.client_task_store,
            server.state.message_observer == server_options.message_observer,
            call_ensures(C::SessionStore::default, (), *server.state.session_store),
            *server.state.server_details == server_details,
            server.state.handler == handler,
            server.app.http_handler.auth == server_options.auth,
            server.app.http_handler.middlewares@ == middleware_chain(server_options),
            server_options.dns_rebinding_protection && (server_options.allowed_hosts is Some
                || server_options.allowed_origins is Some) ==> {
                &&& server.app.http_handler.middlewares@.len() > 0
                &&& server.app.http_handler.middlewares@[0]
                    == (Middleware::<C>::DnsRebindProtector {
                    allowed_hosts: server_options.allowed_hosts,
                    allowed_origins: server_options.allowed_origins,
                })
            },
            server_options.auth matches Some(provider) ==> {
                &&& server.app.http_handler.middlewares@.len() > 0
                &&& server.app.http_handler.middlewares@.last() == Middleware::<C>::Auth(provider)
            },
            server.app.http_handler.health_handler == server_options.health_handler,
            server.app.routes@ == Seq::<Route>::empty(),
            server.options == kept_options(server_options),
            server.features == features,
    {
        let mut options = server_options;
        let id_generator = match options.session_id_generator.take() {
            Some(generator) => SessionIdSource::Custom(generator),
            None => SessionIdSource::Uuid,
        };
        let state = Arc::new(
            McpAppState {
                session_store: Default::default(),
                id_generator,
                stream_id_prefix: "s_".to_string(),
                server_details: Arc::new(server_details),
                handler,
                ping_interval: options.ping_interval,
                transport_options: Arc::clone(&options.transport_options),
                enable_json_response: match options.enable_json_response {
                    Some(enabled) => enabled,
                    None => false,
                },
                event_store: share(&options.event_store),
                task_store: options.task_store.take(),
                client_task_store: options.client_task_store.take(),
                message_observer: options.message_observer.take(),
            },
        );

        let mut middlewares: Vec<Middleware<C>> = Vec::new();
        if options.needs_dns_protection() {
            let allowed_hosts = options.allowed_hosts.take();
            let allowed_origins = options.allowed_origins.take();
            middlewares.push(Middleware::DnsRebindProtector { allowed_hosts, allowed_origins });
        }
        let auth = options.auth.take();
        if let Some(provider) = &auth {
            middlewares.push(Middleware::Auth(Arc::clone(provider)));
        }
        assert(middlewares@ =~= middleware_chain(server_options));
        let health_handler = share(&options.health_handler);

        HyperServer {
            app: App {
                http_handler: McpHttpHandler { auth, middlewares, health_handler },
                routes: Vec::new(),
            },
            state,
            options,
            handle: new_handle(),
            features,
        }
    }
}

/// What is to be done next to describe a server.
pub enum InfoStep {
    /// This is the description.
    Ready(String),
    /// Find out the address that the server binds to, and hand the outcome to
    /// `server_info_resolved`.
    ResolveAddress,
}

/// A signal that asks the process to end.
pub enum Signal {
    CtrlC,
    Terminate,
}

/// One of the things that shutting down consists of.
pub enum ShutdownAction<C: Components> {
    /// Remove all sessions from the store.
    ClearSessions(Arc<C::SessionStore>),
    /// Accept no more connections, and give the open ones this long to end.
    GracefulShutdown { handle: Handle, timeout: Option<Duration> },
}

/// What is to be done on a signal, whichever it is: the sessions end first, then
/// open connections have five seconds left.
pub fn shutdown_signal<C: Components>(
    _signal: Signal,
    handle: Handle,
    state: Arc<McpAppState<C>>,
) -> (r: Vec<ShutdownAction<C>>)
    ensures
        r@ == seq![
            ShutdownAction::<C>::ClearSessions(state.session_store),
            ShutdownAction::<C>::GracefulShutdown { handle, timeout: Some(seconds(5)) },
        ],
{
    let mut steps: Vec<ShutdownAction<C>> = Vec::new();
    steps.push(ShutdownAction::ClearSessions(Arc::clone(&state.session_store)));
    steps.push(
        ShutdownAction::GracefulShutdown {
            handle,
            timeout: Some(Duration::from_secs(GRACEFUL_SHUTDOWN_TIMEOUT_SECS)),
        },
    );
    assert(steps@ =~= seq![
        ShutdownAction::<C>::ClearSessions(state.session_store),
        ShutdownAction::<C>::GracefulShutdown { handle, timeout: Some(seconds(5)) },
    ]);
    steps
}

/// A line of the server's description: that a transport is available at a URL.
pub open spec fn availability(
    bullet: Seq<char>,
    enable_ssl: bool,
    addr: Seq<char>,
    path: Seq<char>,
) -> Seq<char> {
    bullet + (if enable_ssl {
        "SSL server"@
    } else {
        "Server"@
    }) + " is available at "@ + scheme(enable_ssl) + "://"@ + addr + path
}

fn availability_text(bullet: &str, enable_ssl: bool, addr: &str, path: &str) -> (r: String)
    ensures
        r@ == availability(bullet@, enable_ssl, addr@, path@),
{
    let mut line = bullet.to_string();
    line.append(
        if enable_ssl {
            "SSL server"
        } else {
            "Server"
        },
    );
    line.append(" is available at ");
    line.append(scheme_text(enable_ssl));
    line.append("://");
    line.append(addr);
    line.append(path);
    line
}

impl<C: Components> HyperServer<C> {
    /// What the server says of itself when it is bound to `addr`: where
    /// streamable HTTP is available, and where SSE is, if it is.
    pub open spec fn info(&self, addr: Seq<char>) -> Seq<char> {
        let streamable_http = availability(
            "\n• Streamable HTTP "@,
            self.options.enable_ssl,
            addr,
            self.options.streamable_http_path(),
        );
        if self.features.sse && self.options.sse_support {
            streamable_http + availability(
                "\n• SSE "@,
                self.options.enable_ssl,
                addr,
                self.options.sse_path(),
            )
        } else {
            streamable_http
        }
    }

    /// Whether the server can do what its options ask: encrypt connections only
    /// if it was built with SSL.
    pub open spec fn servable(&self) -> bool {
        self.options.enable_ssl ==> self.features.ssl
    }

    /// What all sessions of the server share.
    pub fn state(&self) -> (r: Arc<McpAppState<C>>)
        ensures
            r == self.state,
    {
        Arc::clone(&self.state)
    }

    /// Adds a route to the server.
    pub fn with_route(self, path: &'static str, route: MethodRouter) -> (server: Self)
        ensures
            server.app.routes@ == self.app.routes@.push(Route { path, handlers: route }),
            server.app.http_handler == self.app.http_handler,
            server.state == self.state,
            server.options == self.options,
            server.handle == self.handle,
            server.features == self.features,
    {
        let mut server = self;
        server.app.routes.push(Route { path, handlers: route });
        server
    }

    /// Describes the server as it is when bound to `addr`.
    pub fn server_info_at(&self, addr: &str) -> (r: String)
        ensures
            r@ == self.info(addr@),
            r@ == "\n• Streamable HTTP "@ + (if self.options.enable_ssl {
                "SSL server"@
            } else {
                "Server"@
            }) + " is available at "@ + (if self.options.enable_ssl {
                "https"@
            } else {
                "http"@
            }) + "://"@ + addr@ + (match self.options.custom_streamable_http_endpoint {
                Some(path) => path@,
                None => "/mcp"@,
            }) + (if self.features.sse && self.options.sse_support {
                "\n• SSE "@ + (if self.options.enable_ssl {
                    "SSL server"@
                } else {
                    "Server"@
                }) + " is available at "@ + (if self.options.enable_ssl {
                    "https"@
                } else {
                    "http"@
                }) + "://"@ + addr@ + (match self.options.custom_sse_endpoint {
                    Some(path) => path@,
                    None => "/sse"@,
                })
            } else {
                Seq::<char>::empty()
            }),
    {
        let mut info = availability_text(
            "\n• Streamable HTTP ",
            self.options.enable_ssl,
            addr,
            self.options.streamable_http_endpoint(),
        );
        if self.features.sse && self.options.sse_support {
            let sse = availability_text(
                "\n• SSE ",
                self.options.enable_ssl,
                addr,
                self.options.sse_endpoint(),
            );
            info.append(sse.as_str());
        }
        info
    }

    /// Describes the server. Without an address, the one that it binds to has to
    /// be found out first.
    pub fn server_info(&self, addr: Option<&str>) -> (step: InfoStep)
        ensures
            match addr {
                Some(addr) => step matches InfoStep::Ready(text) && text@ == self.info(addr@),
                None => step is ResolveAddress,
            },
    {
        match addr {
            Some(addr) => InfoStep::Ready(self.server_info_at(addr)),
            None => InfoStep::ResolveAddress,
        }
    }

    /// Describes the server once the search for its address has ended.
    pub fn server_info_resolved(&self, addr: TransportServerResult<String>) -> (r:
        TransportServerResult<String>)
        ensures
            match addr {
                Ok(addr) => r matches Ok(text) && text@ == self.info(addr@),
                Err(error) => r == Err::<String, TransportServerError>(error),
            },
    {
        match addr {
            Ok(addr) => Ok(self.server_info_at(addr.as_str())),
            Err(error) => Err(error),
        }
    }

    /// The options that the server keeps.
    pub fn options(&self) -> (r: &HyperServerOptions<C>)
        ensures
            *r == self.options,
    {
        &self.options
    }

    /// The handle through which the server can be stopped.
    pub fn server_handle(&self) -> (r: Handle)
        ensures
            r == self.handle,
    {
        clone_handle(&self.handle)
    }

    /// Whether the server can do what its options ask.
    pub fn can_serve(&self) -> (r: bool)
        ensures
            r == self.servable(),
            r == (self.options.enable_ssl ==> self.features.ssl),
    {
        !self.options.enable_ssl || self.features.ssl
    }
}

} // verus!
