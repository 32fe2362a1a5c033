use axum::routing::get;
use mcp_hyper_server::components::Components;
use mcp_hyper_server::error::TransportServerError;
use mcp_hyper_server::options::HyperServerOptions;
use mcp_hyper_server::server::{
    shutdown_signal, Features, HyperServer, InfoStep, Middleware, SessionIdSource, ShutdownAction,
    Signal,
};
use mcp_hyper_server::serving::{ActionOutcome, ServeAction, ServeStep};
use rust_mcp_schema::{Implementation, InitializeResult};
use std::sync::Arc;
use std::time::Duration;

/// A store of sessions that holds none when it is made.
struct Sessions {
    name: &'static str,
    live: Vec<String>,
}

impl Default for Sessions {
    fn default() -> Self {
        Sessions {
            name: "sessions",
            live: vec![],
        }
    }
}

struct Parts;

impl Components for Parts {
    type SessionIdGenerator = str;
    type TransportOptions = u32;
    type EventStore = str;
    type ServerTaskStore = str;
    type ClientTaskStore = str;
    type AuthProvider = str;
    type HealthHandler = str;
    type MessageObserver = str;
    type ServerHandler = str;
    type SessionStore = Sessions;
    type SessionRuntime = str;
    type ServerTask = &'static str;
    type JoinError = &'static str;
    type PollingError = &'static str;
}

type Options = HyperServerOptions<Parts>;

fn details(name: &str) -> InitializeResult {
    InitializeResult {
        capabilities: Default::default(),
        instructions: None,
        meta: None,
        protocol_version: String::from("2025-11-25"),
        server_info: Implementation {
            description: None,
            icons: vec![],
            name: String::from(name),
            title: None,
            version: String::from("1"),
            website_url: None,
        },
    }
}

fn server(options: Options, features: Features) -> HyperServer<Parts> {
    HyperServer::new(details("demo"), Arc::from("handler"), options, features)
}

const ALL: Features = Features {
    ssl: true,
    sse: true,
};

fn some(text: &str) -> Option<Arc<str>> {
    Some(Arc::from(text))
}

fn full() -> Options {
    Options {
        session_id_generator: some("ids"),
        transport_options: Arc::new(3),
        event_store: some("events"),
        task_store: some("tasks"),
        client_task_store: some("client tasks"),
        enable_json_response: Some(true),
        ping_interval: Duration::from_secs(30),
        allowed_hosts: Some(vec![String::from("127.0.0.1")]),
        dns_rebinding_protection: true,
        auth: some("auth"),
        health_handler: some("health"),
        message_observer: some("observer"),
        ..Default::default()
    }
}

#[test]
fn parts_move_into_the_state() {
    let server = server(full(), ALL);
    let state = server.state();
    assert!(matches!(&state.id_generator, SessionIdSource::Custom(g) if &**g == "ids"));
    assert_eq!(state.stream_id_prefix, "s_");
    assert_eq!(state.session_store.name, "sessions");
    assert!(state.session_store.live.is_empty());
    assert_eq!(state.server_details.server_info.name, "demo");
    assert_eq!(&*state.handler, "handler");
    assert_eq!(state.ping_interval, Duration::from_secs(30));
    assert_eq!(*state.transport_options, 3);
    assert!(state.enable_json_response);
    assert_eq!(state.event_store.as_deref(), Some("events"));
    assert_eq!(state.task_store.as_deref(), Some("tasks"));
    assert_eq!(state.client_task_store.as_deref(), Some("client tasks"));
    assert_eq!(state.message_observer.as_deref(), Some("observer"));

    let kept = server.options();
    assert!(kept.session_id_generator.is_none());
    assert!(kept.task_store.is_none());
    assert!(kept.client_task_store.is_none());
    assert!(kept.message_observer.is_none());
    assert!(kept.auth.is_none());
    assert!(kept.allowed_hosts.is_none());
    assert!(!kept.needs_dns_protection());
    assert!(kept.dns_rebinding_protection);
    assert_eq!(kept.event_store.as_deref(), Some("events"));
    assert_eq!(kept.health_handler.as_deref(), Some("health"));
    assert_eq!(kept.base_url(), full().base_url());
}

#[test]
fn bare_server_generates_uuids() {
    let server = server(Options::default(), ALL);
    assert!(matches!(server.state().id_generator, SessionIdSource::Uuid));
    assert!(!server.state().enable_json_response);
    assert!(server.state().task_store.is_none());
    assert!(server.app.http_handler.middlewares.is_empty());
    assert!(server.app.http_handler.auth.is_none());
    assert!(server.app.routes.is_empty());
}

#[test]
fn dns_protection_comes_before_authentication() {
    let handler = server(full(), ALL).app.http_handler;
    assert_eq!(handler.auth.as_deref(), Some("auth"));
    assert_eq!(handler.health_handler.as_deref(), Some("health"));
    assert_eq!(handler.middlewares.len(), 2);
    match &handler.middlewares[0] {
        Middleware::DnsRebindProtector {
            allowed_hosts,
            allowed_origins,
        } => {
            assert_eq!(allowed_hosts, &Some(vec![String::from("127.0.0.1")]));
            assert!(allowed_origins.is_none());
        }
        _ => panic!("not protected"),
    }
    assert!(matches!(&handler.middlewares[1], Middleware::Auth(a) if &**a == "auth"));
}

#[test]
fn unused_lists_stay_in_the_options() {
    let options = Options {
        dns_rebinding_protection: false,
        ..full()
    };
    let server = server(options, ALL);
    assert_eq!(server.app.http_handler.middlewares.len(), 1);
    assert_eq!(
        server.options().allowed_hosts,
        Some(vec![String::from("127.0.0.1")])
    );
}

#[test]
fn routes_are_added_in_order() {
    let server = server(Options::default(), ALL)
        .with_route("/a", get(|| async { "a" }))
        .with_route("/b", get(|| async { "b" }));
    let paths: Vec<&str> = server.app.routes.iter().map(|r| r.path).collect();
    assert_eq!(paths, vec!["/a", "/b"]);
    assert_eq!(server.state().session_store.name, "sessions");
}

fn info(server: &HyperServer<Parts>, addr: &str) -> String {
    match server.server_info(Some(addr)) {
        InfoStep::Ready(text) => text,
        InfoStep::ResolveAddress => panic!("not ready"),
    }
}

#[test]
fn info_names_the_endpoints() {
    let plain = server(Options::default(), ALL);
    assert_eq!(
        info(&plain, "127.0.0.1:8080"),
        "\n\u{2022} Streamable HTTP Server is available at http://127.0.0.1:8080/mcp\
         \n\u{2022} SSE Server is available at http://127.0.0.1:8080/sse"
    );
    let ssl = server(
        Options {
            enable_ssl: true,
            sse_support: false,
            custom_streamable_http_endpoint: Some(String::from("/x")),
            ..Default::default()
        },
        ALL,
    );
    assert_eq!(
        info(&ssl, "[::1]:1"),
        "\n\u{2022} Streamable HTTP SSL server is available at https://[::1]:1/x"
    );
    let without_sse = server(
        Options::default(),
        Features {
            ssl: true,
            sse: false,
        },
    );
    assert_eq!(
        info(&without_sse, "a:1"),
        "\n\u{2022} Streamable HTTP Server is available at http://a:1/mcp"
    );
}

#[test]
fn info_at_an_address_needs_no_valid_options() {
    // the options name no certificate, but the address is given
    let server = server(
        Options {
            enable_ssl: true,
            ..Default::default()
        },
        ALL,
    );
    assert!(info(&server, "a:1").contains("https://a:1/mcp"));
}

#[test]
fn info_without_an_address_resolves_first() {
    let server = server(Options::default(), ALL);
    assert!(matches!(server.server_info(None), InfoStep::ResolveAddress));
    assert_eq!(
        server
            .server_info_resolved(Ok(String::from("a:1")))
            .unwrap(),
        info(&server, "a:1")
    );
    match server.server_info_resolved(Err(TransportServerError::ServerStartError(String::from(
        "nowhere",
    )))) {
        Err(TransportServerError::ServerStartError(text)) => assert_eq!(text, "nowhere"),
        _ => panic!("no error"),
    }
}

/// Serves, with `outcomes` telling what comes of each action, and lists the actions
/// that were handed out.
fn perform(
    step: ServeStep<Parts>,
    outcomes: impl Fn(&ServeAction<Parts>) -> ActionOutcome,
) -> (Vec<ServeAction<Parts>>, Result<(), TransportServerError>) {
    let mut performed = vec![];
    let mut step = step;
    loop {
        step = match step {
            ServeStep::Perform { action, remaining } => {
                let done = outcomes(&action);
                performed.push(action);
                remaining.after_action(done)
            }
            ServeStep::Ended(result) => return (performed, result),
        };
    }
}

/// The actions that serving consists of where none fails.
fn all(step: ServeStep<Parts>) -> Vec<ServeAction<Parts>> {
    let (performed, result) = perform(step, |_| ActionOutcome::Done);
    assert!(result.is_ok());
    performed
}

fn names(actions: &[ServeAction<Parts>]) -> Vec<String> {
    actions
        .iter()
        .map(|action| match action {
            ServeAction::LoadTlsConfig {
                cert_path,
                key_path,
            } => format!("tls {} {}", cert_path, key_path),
            ServeAction::Announce(text) => format!("announce{}", text),
            ServeAction::WatchSignals { .. } => String::from("signals"),
            ServeAction::Serve {
                app,
                addr,
                encrypted,
                ..
            } => {
                let how = if *encrypted { "encrypted" } else { "plain" };
                format!("serve {} routes at {} {}", app.routes.len(), addr, how)
            }
        })
        .collect()
}

#[test]
fn plain_serving() {
    let server = server(
        Options {
            sse_support: false,
            ..Default::default()
        },
        Features {
            ssl: false,
            sse: true,
        },
    );
    assert!(server.can_serve());
    assert_eq!(
        names(&all(server.serve("a:1"))),
        vec![
            "announce\n\u{2022} Streamable HTTP Server is available at http://a:1/mcp",
            "signals",
            "serve 0 routes at a:1 plain"
        ]
    );
}

#[test]
fn encrypted_serving_loads_the_certificate_first() {
    let server = server(
        Options {
            enable_ssl: true,
            sse_support: false,
            ssl_cert_path: Some(String::from("cert.pem")),
            ssl_key_path: Some(String::from("key.pem")),
            ..Default::default()
        },
        ALL,
    );
    assert!(server.can_serve());
    assert_eq!(
        names(&all(server.serve("a:1"))),
        vec![
            "tls cert.pem key.pem",
            "announce\n\u{2022} Streamable HTTP SSL server is available at https://a:1/mcp",
            "signals",
            "serve 0 routes at a:1 encrypted"
        ]
    );
}

#[test]
fn signals_are_watched_only_if_enabled() {
    for enable_ssl in [false, true] {
        let server = server(
            Options {
                enable_ssl,
                enable_signal_handler: false,
                ..Default::default()
            },
            ALL,
        );
        let actions = all(server.serve("a:1"));
        assert!(!names(&actions).contains(&String::from("signals")));
        assert!(matches!(actions.last(), Some(ServeAction::Serve { .. })));
    }
}

#[test]
fn server_is_served_through_its_own_handle() {
    let rt = tokio::runtime::Runtime::new().unwrap();
    let server = server(Options::default(), ALL).with_route("/a", get(|| async { "a" }));
    let own = server.server_handle();
    let state = server.state();
    let actions = all(server.start_http("127.0.0.1:0"));
    assert_eq!(actions.len(), 3);
    for action in actions {
        match action {
            ServeAction::WatchSignals { handle, state: watched } => {
                assert!(Arc::ptr_eq(&watched, &state));
                assert_eq!(handle.connection_count(), 0);
            }
            ServeAction::Serve {
                app,
                addr,
                handle,
                encrypted,
            } => {
                assert!(!encrypted);
                assert_eq!(app.routes[0].path, "/a");
                let own = own.clone();
                rt.block_on(async move {
                    let running = tokio::spawn(
                        axum_server::bind(addr.parse().unwrap())
                            .handle(handle)
                            .serve(axum::Router::new().into_make_service()),
                    );
                    assert!(own.listening().await.is_some());
                    own.graceful_shutdown(None);
                    assert!(running.await.unwrap().is_ok());
                });
            }
            ServeAction::Announce(_) => {}
            ServeAction::LoadTlsConfig { .. } => panic!("not encrypted"),
        }
    }
}

#[test]
fn ssl_needs_the_feature() {
    let features = Features {
        ssl: false,
        sse: true,
    };
    let ssl = Options {
        enable_ssl: true,
        ..Default::default()
    };
    assert!(!server(ssl, features).can_serve());
    assert!(server(Options::default(), features).can_serve());
}

fn encrypted() -> HyperServer<Parts> {
    let ssl = Options {
        enable_ssl: true,
        ssl_cert_path: Some(String::from("cert.pem")),
        ssl_key_path: Some(String::from("key.pem")),
        ..Default::default()
    };
    server(ssl, ALL)
}

#[test]
fn nothing_is_served_without_the_certificate() {
    let (performed, result) = perform(encrypted().start_ssl("a:1"), |action| match action {
        ServeAction::LoadTlsConfig { .. } => {
            ActionOutcome::TlsConfigFailed(String::from("bad key"))
        }
        _ => panic!("performed after the failure"),
    });
    assert_eq!(names(&performed), vec!["tls cert.pem key.pem"]);
    assert!(matches!(
        result,
        Err(TransportServerError::SslCertError(text)) if text == "bad key"
    ));
}

#[test]
fn certificate_paths_may_be_empty() {
    // not valid options, but loading is what reports it
    let ssl = Options {
        enable_ssl: true,
        ..Default::default()
    };
    let (performed, result) = perform(server(ssl, ALL).start_ssl("a:1"), |_| {
        ActionOutcome::TlsConfigFailed(String::from("no such file"))
    });
    assert_eq!(names(&performed), vec!["tls  "]);
    assert!(result.is_err());
}

#[test]
fn result_is_that_of_serving() {
    for (step, count) in [
        (encrypted().start_ssl("a:1"), 4),
        (server(Options::default(), ALL).start_http("a:1"), 3),
    ] {
        let (performed, result) = perform(step, |action| match action {
            ServeAction::Serve { .. } => ActionOutcome::ServeFailed(String::from("in use")),
            _ => ActionOutcome::Done,
        });
        assert_eq!(performed.len(), count);
        assert!(matches!(
            result,
            Err(TransportServerError::ServerStartError(text)) if text == "in use"
        ));
    }
}

#[test]
fn signals_end_sessions_first() {
    for signal in [Signal::CtrlC, Signal::Terminate] {
        let server = server(Options::default(), ALL);
        let actions = shutdown_signal(signal, server.server_handle(), server.state());
        assert_eq!(actions.len(), 2);
        assert!(matches!(&actions[0], ShutdownAction::ClearSessions(s) if s.name == "sessions"));
        match &actions[1] {
            ShutdownAction::GracefulShutdown { handle, timeout } => {
                assert_eq!(*timeout, Some(Duration::from_secs(5)));
                assert_eq!(handle.connection_count(), 0);
            }
            _ => panic!("no shutdown"),
        }
    }
}
