use mcp_hyper_server::calls::{RuntimeCall, SessionCall};
use mcp_hyper_server::components::Components;
use mcp_hyper_server::error::{SdkError, TransportServerError};
use mcp_hyper_server::options::HyperServerOptions;
use mcp_hyper_server::polling::PollStep;
use mcp_hyper_server::runtime::{CreateStep, HyperRuntime, StartOutcome};
use mcp_hyper_server::server::{Features, HyperServer, ShutdownAction};
use mcp_hyper_server::serving::{ActionOutcome, ServeAction, ServeStep};
use rust_mcp_schema::schema_utils::{CustomRequest, NotificationFromServer, RequestFromServer};
use rust_mcp_schema::{
    CancelTaskParams, CancelledNotificationParams, CreateMessageRequestParams,
    ElicitCompleteParams, ElicitFormSchema, ElicitRequestFormParams, ElicitRequestParams,
    GetTaskParams, GetTaskPayloadParams, Implementation, InitializeResult, LoggingLevel,
    LoggingMessageNotificationParams, NotificationParams, ProgressNotificationParams,
    ProgressToken, RequestParams, ResourceUpdatedNotificationParams, TaskStatus,
    TaskStatusNotificationParams,
};
use std::collections::HashMap;
use std::sync::Arc;
use std::time::Duration;

/// A store of sessions that holds none when it is made.
struct Sessions {
    name: &'static str,
    live: Vec<String>,
}

impl Default for Sessions {
    fn default() -> Self {
        Sessions {
            name: "sessions",
            live: vec![],
        }
    }
}

struct Parts;

impl Components for Parts {
    type SessionIdGenerator = str;
    type TransportOptions = u32;
    type EventStore = str;
    type ServerTaskStore = str;
    type ClientTaskStore = str;
    type AuthProvider = str;
    type HealthHandler = str;
    type MessageObserver = str;
    type ServerHandler = str;
    type SessionStore = Sessions;
    type SessionRuntime = str;
    type ServerTask = &'static str;
    type JoinError = &'static str;
    type PollingError = &'static str;
}

type Options = HyperServerOptions<Parts>;

fn details(name: &str) -> InitializeResult {
    InitializeResult {
        capabilities: Default::default(),
        instructions: None,
        meta: None,
        protocol_version: String::from("2025-11-25"),
        server_info: Implementation {
            description: None,
            icons: vec![],
            name: String::from(name),
            title: None,
            version: String::from("1"),
            website_url: None,
        },
    }
}

fn server(options: Options, features: Features) -> HyperServer<Parts> {
    HyperServer::new(details("demo"), Arc::from("handler"), options, features)
}

const ALL: Features = Features {
    ssl: true,
    sse: true,
};

fn runtime() -> HyperRuntime<Parts> {
    let server = server(Options::default(), ALL);
    HyperRuntime {
        state: server.state(),
        server_task: "task",
        server_handle: server.server_handle(),
    }
}

fn id(text: &str) -> String {
    String::from(text)
}

/// The call, once it is seen to go to the session `s1` of the server, and to be
/// refused where there is none.
fn sent(call: SessionCall<Parts>) -> RuntimeCall {
    assert_eq!(call.lookup.session_store.name, "sessions");
    assert_eq!(call.lookup.session_id, "s1");
    match call.deliver(Some(Arc::from("live"))) {
        Ok((runtime, call)) => {
            assert_eq!(&*runtime, "live");
            call
        }
        Err(_) => panic!("refused"),
    }
}

fn refused(call: SessionCall<Parts>) -> String {
    match call.deliver(None) {
        Err(TransportServerError::SessionIdInvalid(id)) => id,
        _ => panic!("not refused"),
    }
}

fn form(message: &str) -> ElicitRequestParams {
    ElicitRequestParams::FormParams(ElicitRequestFormParams::new(
        id(message),
        ElicitFormSchema::new(HashMap::new(), vec![], None),
        None,
        None,
    ))
}

fn asks(params: &ElicitRequestParams, message: &str) -> bool {
    matches!(params, ElicitRequestParams::FormParams(form) if form.message == message)
}

fn sampling(max_tokens: i64) -> CreateMessageRequestParams {
    CreateMessageRequestParams {
        include_context: None,
        max_tokens,
        messages: vec![],
        meta: None,
        metadata: None,
        model_preferences: None,
        stop_sequences: vec![],
        system_prompt: None,
        task: None,
        temperature: None,
        tool_choice: None,
        tools: vec![],
    }
}

fn log(logger: &str) -> LoggingMessageNotificationParams {
    LoggingMessageNotificationParams {
        data: Default::default(),
        level: LoggingLevel::Info,
        logger: Some(id(logger)),
        meta: None,
    }
}

fn updated(uri: &str) -> ResourceUpdatedNotificationParams {
    ResourceUpdatedNotificationParams {
        meta: None,
        uri: id(uri),
    }
}

fn status(task_id: &str) -> TaskStatusNotificationParams {
    TaskStatusNotificationParams {
        created_at: id("then"),
        last_updated_at: id("now"),
        meta: None,
        poll_interval: None,
        status: TaskStatus::Working,
        status_message: None,
        task_id: id(task_id),
        ttl: None,
    }
}

fn custom(method: &str) -> CustomRequest {
    CustomRequest {
        method: id(method),
        params: None,
    }
}

#[test]
fn unknown_sessions_are_refused_by_name() {
    let runtime = runtime();
    assert_eq!(refused(runtime.ping(&id("gone"), None, None)), "gone");
    assert_eq!(refused(runtime.client_info(&id(""))), "");
    match runtime.runtime_by_session(&id("gone")).settle(None) {
        Err(TransportServerError::SessionIdInvalid(text)) => assert_eq!(text, "gone"),
        _ => panic!("found"),
    }
    let found = runtime
        .runtime_by_session(&id("s1"))
        .settle(Some(Arc::from("live")));
    assert_eq!(&*found.unwrap(), "live");
}

#[test]
fn requests_reach_the_session() {
    let r = runtime();
    let s = &id("s1");
    let timeout = Some(Duration::from_secs(9));
    assert!(matches!(
        sent(r.send_request(s, RequestFromServer::PingRequest(None), timeout)),
        RuntimeCall::Request { request: RequestFromServer::PingRequest(None), timeout: t } if t == timeout
    ));
    assert!(matches!(sent(r.client_info(s)), RuntimeCall::ClientInfo));
    assert!(matches!(
        sent(r.request_elicitation(s, form("name?"))),
        RuntimeCall::RequestElicitation(p) if asks(&p, "name?")
    ));
    assert!(matches!(
        sent(r.request_elicitation_task(s, form("name?"))),
        RuntimeCall::RequestElicitationTask(p) if asks(&p, "name?")
    ));
    assert!(matches!(
        sent(r.request_root_list(s, Some(RequestParams { meta: None }))),
        RuntimeCall::RequestRootList(Some(_))
    ));
    assert!(matches!(
        sent(r.ping(s, None, timeout)),
        RuntimeCall::Ping { params: None, timeout: t } if t == timeout
    ));
    assert!(matches!(
        sent(r.request_message_creation(s, sampling(7))),
        RuntimeCall::RequestMessageCreation(p) if p.max_tokens == 7
    ));
    assert!(matches!(
        sent(r.request_get_task(s, GetTaskParams { task_id: id("t") })),
        RuntimeCall::RequestGetTask(p) if p.task_id == "t"
    ));
    assert!(matches!(
        sent(r.request_get_task_payload(s, GetTaskPayloadParams { task_id: id("t") })),
        RuntimeCall::RequestGetTaskPayload(p) if p.task_id == "t"
    ));
    assert!(matches!(
        sent(r.request_task_cancellation(s, CancelTaskParams { task_id: id("t") })),
        RuntimeCall::RequestTaskCancellation(p) if p.task_id == "t"
    ));
    assert!(matches!(
        sent(r.request_custom(s, custom("x/y"))),
        RuntimeCall::RequestCustom(p) if p.method == "x/y"
    ));
}

#[test]
fn notifications_reach_the_session() {
    let r = runtime();
    let s = &id("s1");
    let some = || Some(NotificationParams { meta: None });
    assert!(matches!(
        sent(r.send_notification(s, NotificationFromServer::ToolListChangedNotification(None))),
        RuntimeCall::SendNotification(NotificationFromServer::ToolListChangedNotification(None))
    ));
    assert!(matches!(
        sent(r.notify_log_message(s, log("l"))),
        RuntimeCall::NotifyLogMessage(p) if p.logger.as_deref() == Some("l")
    ));
    assert!(matches!(
        sent(r.notify_prompt_list_changed(s, some())),
        RuntimeCall::NotifyPromptListChanged(Some(_))
    ));
    assert!(matches!(
        sent(r.notify_resource_list_changed(s, None)),
        RuntimeCall::NotifyResourceListChanged(None)
    ));
    assert!(matches!(
        sent(r.notify_resource_updated(s, updated("file:///a"))),
        RuntimeCall::NotifyResourceUpdated(p) if p.uri == "file:///a"
    ));
    assert!(matches!(
        sent(r.notify_tool_list_changed(s, some())),
        RuntimeCall::NotifyToolListChanged(Some(_))
    ));
    let cancelled = CancelledNotificationParams {
        meta: None,
        reason: Some(id("why")),
        request_id: None,
    };
    assert!(matches!(
        sent(r.notify_cancellation(s, cancelled)),
        RuntimeCall::NotifyCancellation(p) if p.reason.as_deref() == Some("why")
    ));
    let progress = ProgressNotificationParams {
        message: Some(id("half")),
        meta: None,
        progress: 0.5,
        progress_token: ProgressToken::Integer(1),
        total: None,
    };
    assert!(matches!(
        sent(r.notify_progress(s, progress)),
        RuntimeCall::NotifyProgress(p) if p.message.as_deref() == Some("half")
    ));
    assert!(matches!(
        sent(r.notify_task_status(s, status("t"))),
        RuntimeCall::NotifyTaskStatus(p) if p.task_id == "t"
    ));
    let complete = ElicitCompleteParams {
        elicitation_id: id("e"),
    };
    assert!(matches!(
        sent(r.notify_elicitation_completed(s, complete)),
        RuntimeCall::NotifyElicitationCompleted(p) if p.elicitation_id == "e"
    ));
    assert!(matches!(
        sent(r.notify_custom(s, custom("x/y"))),
        RuntimeCall::NotifyCustom(p) if p.method == "x/y"
    ));
}

#[test]
fn former_names_send_the_same() {
    let r = runtime();
    let s = &id("s1");
    assert!(matches!(
        sent(r.list_roots(s, None)),
        RuntimeCall::RequestRootList(None)
    ));
    assert!(matches!(
        sent(r.elicit_input(s, form("name?"))),
        RuntimeCall::RequestElicitation(p) if asks(&p, "name?")
    ));
    assert!(matches!(
        sent(r.create_message(s, sampling(7))),
        RuntimeCall::RequestMessageCreation(p) if p.max_tokens == 7
    ));
    assert!(matches!(
        sent(r.send_tool_list_changed(s, None)),
        RuntimeCall::NotifyToolListChanged(None)
    ));
    assert!(matches!(
        sent(r.send_resource_updated(s, updated("u"))),
        RuntimeCall::NotifyResourceUpdated(p) if p.uri == "u"
    ));
    assert!(matches!(
        sent(r.send_resource_list_changed(s, None)),
        RuntimeCall::NotifyResourceListChanged(None)
    ));
    assert!(matches!(
        sent(r.send_prompt_list_changed(s, None)),
        RuntimeCall::NotifyPromptListChanged(None)
    ));
    assert!(matches!(
        sent(r.send_logging_message(s, log("l"))),
        RuntimeCall::NotifyLogMessage(p) if p.logger.as_deref() == Some("l")
    ));
}

#[test]
fn status_changes_go_to_live_sessions_only() {
    let state = runtime().state;
    assert!(state.task_status_changed(status("t"), None).is_none());
    let call = state.task_status_changed(status("t"), Some(id("s1"))).unwrap();
    assert_eq!(call.lookup.session_id, "s1");
    assert_eq!(call.lookup.session_store.name, "sessions");
    assert!(call.deliver_or_drop(None).is_none());
    let call = state.task_status_changed(status("t"), Some(id("s1"))).unwrap();
    match call.deliver_or_drop(Some(Arc::from("live"))) {
        Some((runtime, RuntimeCall::NotifyTaskStatus(params))) => {
            assert_eq!(&*runtime, "live");
            assert_eq!(params.task_id, "t");
        }
        _ => panic!("dropped"),
    }
}

#[test]
fn tasks_without_a_live_session_are_not_polled() {
    let poller = HyperRuntime::<Parts>::task_poller_callback(
        Arc::from("client tasks"),
        Arc::new(Sessions::default()),
    );
    match poller.poll(id("t"), None) {
        PollStep::Refused(failure) => {
            assert_eq!(failure.code, -32600);
            assert_eq!(failure.message, "No session id provided!");
        }
        PollStep::LookUp(_) => panic!("looked up"),
    }
    let pending = || match poller.poll(id("t"), Some(id("s1"))) {
        PollStep::LookUp(pending) => pending,
        PollStep::Refused(_) => panic!("refused"),
    };
    assert_eq!(pending().lookup.session_id, "s1");
    assert_eq!(pending().lookup.session_store.name, "sessions");
    match pending().deliver(None) {
        Err(failure) => {
            assert_eq!(failure.code, -32600);
            assert_eq!(failure.message, "Invalid or broken session!");
        }
        Ok(_) => panic!("polled"),
    }
    match pending().deliver(Some(Arc::from("live"))) {
        Ok(call) => {
            assert_eq!(&*call.runtime, "live");
            assert_eq!(call.task_id, "t");
            assert_eq!(call.session_id.as_deref(), Some("s1"));
            assert_eq!(&*call.client_task_store, "client tasks");
        }
        Err(_) => panic!("refused"),
    }
}

fn with_stores(task_store: bool, client_task_store: bool) -> HyperServer<Parts> {
    server(
        Options {
            task_store: if task_store { Some(Arc::from("tasks")) } else { None },
            client_task_store: if client_task_store {
                Some(Arc::from("client tasks"))
            } else {
                None
            },
            ..Default::default()
        },
        ALL,
    )
}

#[test]
fn nothing_is_spawned_without_an_address() {
    let server = with_stores(true, true);
    let error = TransportServerError::ServerStartError(id("nowhere"));
    let (_, step) = HyperRuntime::create(server, Err(error));
    assert!(matches!(
        step,
        CreateStep::Failed(SdkError::Transport(TransportServerError::ServerStartError(text)))
            if text == "nowhere"
    ));
}

/// Brings a server up and lists what was done on the way.
fn bring_up(
    server: HyperServer<Parts>,
    subscribed: bool,
    started: Result<(), &'static str>,
) -> (Vec<&'static str>, Result<HyperRuntime<Parts>, &'static str>) {
    let mut done = vec![];
    let (creation, mut step) = HyperRuntime::create(server, Ok(id("a:1")));
    assert_eq!(creation.state.session_store.name, "sessions");
    loop {
        step = match step {
            CreateStep::SpawnServer(step) => {
                done.push("spawn");
                match step {
                    ServeStep::Perform {
                        action: ServeAction::Announce(text),
                        ..
                    } => assert!(text.contains("http://a:1/mcp")),
                    _ => panic!("not announced first"),
                }
                creation.after_spawn("task")
            }
            CreateStep::Subscribe {
                task_store,
                server_task,
            } => {
                done.push("subscribe");
                assert_eq!(&*task_store, "tasks");
                creation.after_subscribe(server_task, subscribed)
            }
            CreateStep::ForwardStatusChanges { server_task } => {
                done.push("forward");
                creation.after_forwarding(server_task)
            }
            CreateStep::StartPolling {
                poller,
                server_task,
            } => {
                done.push("poll");
                assert_eq!(&*poller.client_task_store, "client tasks");
                assert_eq!(poller.session_store.name, "sessions");
                creation.after_polling(server_task, started)
            }
            CreateStep::Created(runtime) => return (done, Ok(runtime)),
            CreateStep::Failed(SdkError::TaskPolling(error)) => return (done, Err(error)),
            CreateStep::Failed(_) => panic!("failed otherwise"),
        };
    }
}

#[test]
fn servers_come_up() {
    let (done, runtime) = bring_up(with_stores(false, false), true, Err("unused"));
    assert_eq!(done, vec!["spawn"]);
    let runtime = match runtime {
        Ok(runtime) => runtime,
        Err(_) => panic!("not up"),
    };
    assert_eq!(runtime.server_task, "task");
    assert!(runtime.task_store().is_none());
    assert!(runtime.client_task_store().is_none());

    let (done, runtime) = bring_up(with_stores(true, true), true, Ok(()));
    assert_eq!(done, vec!["spawn", "subscribe", "forward", "poll"]);
    let runtime = match runtime {
        Ok(runtime) => runtime,
        Err(_) => panic!("not up"),
    };
    assert_eq!(runtime.task_store().as_deref(), Some("tasks"));
    assert_eq!(runtime.client_task_store().as_deref(), Some("client tasks"));

    let (done, runtime) = bring_up(with_stores(true, false), false, Err("unused"));
    assert_eq!(done, vec!["spawn", "subscribe"]);
    assert!(runtime.is_ok());
}

#[test]
fn polling_that_does_not_start_is_an_error() {
    let (done, runtime) = bring_up(with_stores(false, true), true, Err("busy"));
    assert_eq!(done, vec!["spawn", "poll"]);
    assert!(matches!(runtime, Err("busy")));
}

#[test]
fn servers_end_in_a_result() {
    assert!(HyperRuntime::<Parts>::await_server(Ok(Ok(()))).is_ok());
    assert!(matches!(
        HyperRuntime::<Parts>::await_server(Ok(Err(TransportServerError::SslCertError(id("c"))))),
        Err(SdkError::Transport(TransportServerError::SslCertError(text))) if text == "c"
    ));
    assert!(matches!(
        HyperRuntime::<Parts>::await_server(Err("panicked")),
        Err(SdkError::ServerTask("panicked"))
    ));
}

/// Serves with no certificate to load, and `end` as what comes of serving.
fn served(end: ActionOutcome) -> Result<(), TransportServerError> {
    let mut end = Some(end);
    let mut step = server(Options::default(), ALL).start_http("a:1");
    loop {
        step = match step {
            ServeStep::Perform { action, remaining } => {
                remaining.after_action(match action {
                    ServeAction::Serve { .. } => end.take().unwrap(),
                    _ => ActionOutcome::Done,
                })
            }
            ServeStep::Ended(result) => return result,
        };
    }
}

#[test]
fn only_started_servers_have_a_runtime() {
    let start = |outcome| HyperServer::<Parts>::start_runtime(runtime(), outcome);
    let started = start(StartOutcome::Listening);
    assert!(matches!(started, Ok(runtime) if runtime.server_task == "task"));
    let stopped = start(StartOutcome::Ended(Ok(served(ActionOutcome::Done))));
    assert!(matches!(stopped, Ok(runtime) if runtime.server_task == "task"));

    let in_use = served(ActionOutcome::ServeFailed(id("address in use")));
    assert!(matches!(
        start(StartOutcome::Ended(Ok(in_use))),
        Err(SdkError::Transport(TransportServerError::ServerStartError(text)))
            if text == "address in use"
    ));
    let bad_key = Err(TransportServerError::SslCertError(id("bad key")));
    assert!(matches!(
        start(StartOutcome::Ended(Ok(bad_key))),
        Err(SdkError::Transport(TransportServerError::SslCertError(text))) if text == "bad key"
    ));
    assert!(matches!(
        start(StartOutcome::Ended(Err("panicked"))),
        Err(SdkError::ServerTask("panicked"))
    ));
}

#[test]
fn server_on_a_port_in_use_does_not_start() {
    let rt = tokio::runtime::Runtime::new().unwrap();
    let runtime = runtime();
    let handle = runtime.server_handle.clone();
    let bound = rt.block_on(async move {
        let taken = tokio::net::TcpListener::bind("127.0.0.1:0").await.unwrap();
        axum_server::bind(taken.local_addr().unwrap())
            .handle(handle)
            .serve(axum::Router::new().into_make_service())
            .await
    });
    let end = match bound {
        Ok(()) => ActionOutcome::Done,
        Err(error) => ActionOutcome::ServeFailed(error.to_string()),
    };
    let outcome = StartOutcome::Ended(Ok(served(end)));
    assert!(matches!(
        HyperServer::<Parts>::start_runtime(runtime, outcome),
        Err(SdkError::Transport(TransportServerError::ServerStartError(_)))
    ));
}

#[test]
fn sessions_are_listed_where_they_are_looked_up() {
    let runtime = runtime();
    let listed = runtime.sessions();
    assert!(Arc::ptr_eq(&listed, &runtime.state.session_store));
    assert!(Arc::ptr_eq(
        &listed,
        &runtime.runtime_by_session(&id("s1")).session_store
    ));
    assert!(listed.live.is_empty());
}

#[test]
fn sessions_are_found_exactly_if_listed() {
    let runtime = runtime();
    let store = Sessions {
        name: "busy",
        live: vec![id("s1"), id("s2")],
    };
    for (session_id, listed) in [("s1", true), ("s2", true), ("s3", false), ("", false)] {
        let lookup = runtime.runtime_by_session(&id(session_id));
        let found = if store.live.contains(&lookup.session_id) {
            Some(Arc::from("live"))
        } else {
            None
        };
        assert_eq!(lookup.settle(found).is_ok(), listed);
    }
}

#[test]
fn shutdown_keeps_the_timeout() {
    for timeout in [None, Some(Duration::from_millis(1500))] {
        match runtime().graceful_shutdown(timeout) {
            ShutdownAction::GracefulShutdown { handle, timeout: t } => {
                assert_eq!(t, timeout);
                assert_eq!(handle.connection_count(), 0);
            }
            ShutdownAction::ClearSessions(_) => panic!("no shutdown"),
        }
    }
}

#[test]
fn handles_stop_the_same_server() {
    let rt = tokio::runtime::Runtime::new().unwrap();
    let server = server(Options::default(), ALL);
    let handle = server.server_handle();
    rt.block_on(async move {
        let running = tokio::spawn(
            axum_server::bind("127.0.0.1:0".parse().unwrap())
                .handle(server.handle)
                .serve(axum::Router::new().into_make_service()),
        );
        assert!(handle.listening().await.is_some());
        handle.graceful_shutdown(Some(Duration::from_secs(1)));
        assert!(running.await.unwrap().is_ok());
    });
}
