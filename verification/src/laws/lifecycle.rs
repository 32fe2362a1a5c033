use std::sync::Arc;

use axum_server::Handle;
use vstd::prelude::*;

use crate::components::Components;
use crate::error::{ErrorView, SdkError, TransportServerError, TransportServerResult};
use crate::laws::assembly::{described, law_description_names_both_urls};
use crate::runtime::{joined_result, CreateStep, Creation, HyperRuntime, StartOutcome};
use crate::server::{App, HyperServer, McpAppState};
use crate::serving::{
    action_result, actions, next_step, step_after_action, ActionOutcome, RemainingActions,
    ServeAction, ServeActionView, ServeStep, ServeStepView,
};

verus! {

/// Serving is, in this order: where connections are encrypted, loading the
/// certificate and the key from the configured paths; announcing the server; where
/// that was asked for, watching signals; and serving. There is nothing else to it.
pub proof fn law_serving_in_order<C: Components>(
    server: HyperServer<C>,
    encrypted: bool,
    addr: Seq<char>,
)
    ensures
        server.serving(encrypted, addr).len() == 2 + (if encrypted {
            1int
        } else {
            0
        }) + (if server.options.enable_signal_handler {
            1int
        } else {
            0
        }),
        encrypted ==> (server.serving(encrypted, addr)[0] matches ServeActionView::LoadTlsConfig {
            cert_path,
            key_path,
        } && {
            &&& server.options.ssl_cert_path matches Some(path) ==> cert_path == path@
            &&& server.options.ssl_cert_path is None ==> cert_path == ""@
            &&& server.options.ssl_key_path matches Some(path) ==> key_path == path@
            &&& server.options.ssl_key_path is None ==> key_path == ""@
        }),
        server.serving(encrypted, addr)[if encrypted {
            1
        } else {
            0
        }] is Announce,
        server.options.enable_signal_handler ==> server.serving(encrypted, addr)[server.serving(
            encrypted,
            addr,
        ).len() - 2] == (ServeActionView::<C>::WatchSignals {
            handle: server.handle,
            state: server.state,
        }),
        server.serving(encrypted, addr).last() == (ServeActionView::<C>::Serve {
            app: server.app,
            addr,
            handle: server.handle,
            encrypted,
        }),
{
}

/// What is announced names the URL of the streamable HTTP endpoint at the address
/// that is bound, right at its beginning.
pub proof fn law_announcement_names_the_bound_address<C: Components>(
    server: HyperServer<C>,
    encrypted: bool,
    addr: Seq<char>,
    path: Seq<char>,
)
    requires
        match server.options.custom_streamable_http_endpoint {
            Some(configured) => path == configured@,
            None => path == "/mcp"@,
        },
    ensures
        server.serving(encrypted, addr)[if encrypted {
            1
        } else {
            0
        }] matches ServeActionView::Announce(text) && ("\n• Streamable HTTP "@ + described(
            server.options.enable_ssl,
        ) + addr + path).is_prefix_of(text),
{
    let sse_path = match server.options.custom_sse_endpoint {
        Some(configured) => configured@,
        None => "/sse"@,
    };
    law_description_names_both_urls(server, addr, path, sse_path);
    let line = "\n• Streamable HTTP "@ + described(server.options.enable_ssl) + addr + path;
    assert(server.info(addr).subrange(0, line.len() as int) =~= line);
}

/// Actions are handed out from the front: the first, with what remains, and nothing
/// but a good end where there is none.
pub proof fn law_actions_are_handed_out_in_order<C: Components>(list: Seq<ServeActionView<C>>)
    ensures
        match next_step(list) {
            ServeStepView::Perform { action, remaining } => list == seq![action] + remaining,
            ServeStepView::Ended(result) => list.len() == 0 && result is Ok,
        },
{
    if list.len() > 0 {
        assert(list =~= seq![list[0]] + list.drop_first());
    }
}

/// After an action that was performed the next one is handed out; after one that
/// failed none is, and serving ends with the error that goes with the failure.
pub proof fn law_failures_end_serving<C: Components>(
    remaining: Seq<ServeActionView<C>>,
    message: String,
)
    ensures
        match step_after_action(remaining, ActionOutcome::Done) {
            ServeStepView::Perform { action, remaining: rest } => remaining == seq![action] + rest,
            ServeStepView::Ended(result) => remaining.len() == 0 && result is Ok,
        },
        step_after_action(remaining, ActionOutcome::TlsConfigFailed(message))
            == ServeStepView::<C>::Ended(Err(ErrorView::SslCertError(message@))),
        step_after_action(remaining, ActionOutcome::ServeFailed(message))
            == ServeStepView::<C>::Ended(Err(ErrorView::ServerStartError(message@))),
        action_result(ActionOutcome::Done) is Ok,
        action_result(ActionOutcome::TlsConfigFailed(message)) == Err::<(), ErrorView>(
            ErrorView::SslCertError(message@),
        ),
        action_result(ActionOutcome::ServeFailed(message)) == Err::<(), ErrorView>(
            ErrorView::ServerStartError(message@),
        ),
{
    law_actions_are_handed_out_in_order(remaining);
}

/// An action is seen as it is: as the same action, with the same texts and parts; and
/// a list of actions as the list of what is seen of each.
pub proof fn law_actions_are_seen_whole<C: Components>(
    cert_path: String,
    key_path: String,
    text: String,
    handle: Handle,
    state: Arc<McpAppState<C>>,
    app: App<C>,
    encrypted: bool,
    list: Seq<ServeAction<C>>,
)
    ensures
        (ServeAction::<C>::LoadTlsConfig { cert_path, key_path })@ == (ServeActionView::<
            C,
        >::LoadTlsConfig { cert_path: cert_path@, key_path: key_path@ }),
        ServeAction::<C>::Announce(text)@ == ServeActionView::<C>::Announce(text@),
        (ServeAction::WatchSignals { handle, state })@ == (ServeActionView::WatchSignals {
            handle,
            state,
        }),
        (ServeAction::Serve { app, addr: text, handle, encrypted })@ == (ServeActionView::Serve {
            app,
            addr: text@,
            handle,
            encrypted,
        }),
        actions(list).len() == list.len(),
        forall|i: int| 0 <= i < list.len() ==> #[trigger] actions(list)[i] == list[i]@,
{
}

/// A step of serving is seen as it is.
pub proof fn law_steps_of_serving_are_seen_whole<C: Components>(
    action: ServeAction<C>,
    remaining: RemainingActions<C>,
    error: TransportServerError,
)
    ensures
        (ServeStep::Perform { action, remaining })@ == (ServeStepView::Perform {
            action: action@,
            remaining: remaining@,
        }),
        ServeStep::<C>::Ended(Ok(()))@ == ServeStepView::<C>::Ended(Ok(())),
        ServeStep::<C>::Ended(Err(error))@ == ServeStepView::<C>::Ended(Err(error@)),
{
}

/// A runtime is that of the server that is being brought up.
pub proof fn law_runtime_is_that_of_its_server<C: Components>(
    creation: Creation<C>,
    server_task: C::ServerTask,
)
    ensures
        creation.runtime(server_task).state == creation.state,
        creation.runtime(server_task).server_task == server_task,
        creation.runtime(server_task).server_handle == creation.server_handle,
{
}

/// Once the server is spawned its own task store, if it has one, is asked for a
/// subscription; status changes are forwarded exactly if it offers one; its own store
/// of client tasks, if it has one, is polled through its own sessions; and all that
/// while the background task is kept.
pub proof fn law_steps_of_creation<C: Components>(
    creation: Creation<C>,
    server_task: C::ServerTask,
    polling: Result<(), C::PollingError>,
)
    ensures
        creation.state.task_store matches Some(store) ==> creation.spawned_step(server_task)
            == (CreateStep::<C>::Subscribe { task_store: store, server_task }),
        creation.state.task_store is None ==> creation.spawned_step(server_task)
            == creation.polling_step(server_task),
        creation.subscribed_step(server_task, true) == (CreateStep::<C>::ForwardStatusChanges {
            server_task,
        }),
        creation.subscribed_step(server_task, false) == creation.polling_step(server_task),
        creation.state.client_task_store matches Some(store) ==> (creation.polling_step(server_task)
            matches CreateStep::StartPolling { poller, server_task: task } && {
            &&& poller.client_task_store == store
            &&& poller.session_store == creation.state.session_store
            &&& task == server_task
        }),
        creation.state.client_task_store is None ==> (creation.polling_step(server_task)
            matches CreateStep::Created(runtime) && runtime == (HyperRuntime::<C> {
            state: creation.state,
            server_task,
            server_handle: creation.server_handle,
        })),
        polling is Ok ==> (creation.polled_step(server_task, polling) matches CreateStep::Created(
            runtime,
        ) && runtime == (HyperRuntime::<C> {
            state: creation.state,
            server_task,
            server_handle: creation.server_handle,
        })),
        polling matches Err(error) ==> creation.polled_step(server_task, polling) == CreateStep::<
            C,
        >::Failed(SdkError::TaskPolling(error)),
{
}

/// A background task that ended well gives no error; one that ended with an error
/// gives that error; and one that did not come to a result gives the reason.
pub proof fn law_result_of_the_background_task<C: Components>(
    served: TransportServerResult<()>,
    lost: C::JoinError,
)
    ensures
        served is Ok ==> joined_result::<C>(Ok(served)) is Ok,
        served matches Err(error) ==> joined_result::<C>(Ok(served)) == Err::<(), SdkError<C>>(
            SdkError::Transport(error),
        ),
        joined_result::<C>(Err(lost)) == Err::<(), SdkError<C>>(SdkError::ServerTask(lost)),
{
}

/// A server that listens has its runtime, and so has one that was stopped since; one
/// that failed before has the error instead.
pub proof fn law_result_of_starting<C: Components>(
    runtime: HyperRuntime<C>,
    served: TransportServerResult<()>,
    lost: C::JoinError,
)
    ensures
        StartOutcome::<C>::Listening.result(runtime) == Ok::<HyperRuntime<C>, SdkError<C>>(runtime),
        StartOutcome::<C>::Listening.reason() is None,
        served is Ok ==> StartOutcome::<C>::Ended(Ok(served)).result(runtime) == Ok::<
            HyperRuntime<C>,
            SdkError<C>,
        >(runtime),
        served matches Err(error) ==> StartOutcome::<C>::Ended(Ok(served)).result(runtime) == Err::<
            HyperRuntime<C>,
            SdkError<C>,
        >(SdkError::Transport(error)),
        StartOutcome::<C>::Ended(Err(lost)).result(runtime) == Err::<HyperRuntime<C>, SdkError<C>>(
            SdkError::ServerTask(lost),
        ),
{
}

} // verus!
