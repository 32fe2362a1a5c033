use std::sync::Arc;
use std::time::Duration;

use rust_mcp_schema::TaskStatusNotificationParams;
use vstd::prelude::*;

use crate::calls::{RuntimeCall, SessionCall, SessionId, SessionLookup};
use crate::components::Components;
use crate::error::{SdkError, TransportServerError, TransportServerResult};
use crate::polling::{PendingPoll, PollCall, PollStep, RpcFailure, TaskPoller};
use crate::runtime::{CreateStep, Creation, HyperRuntime, StartOutcome};
use crate::server::{HyperServer, McpAppState, ShutdownAction};
use crate::serving::ServeStep;

verus! {

/// A server is spawned exactly if it has an address: as it serves at that address.
/// Without one, the reason is given and nothing is done.
pub proof fn law_create<C: Components>(
    server: HyperServer<C>,
    addr: String,
    error: TransportServerError,
    spawned: (Creation<C>, CreateStep<C>),
    failed: (Creation<C>, CreateStep<C>),
    text: &str,
    served: ServeStep<C>,
)
    requires
        call_ensures(HyperRuntime::<C>::create, (server, Ok(addr)), spawned),
        call_ensures(HyperRuntime::<C>::create, (server, Err(error)), failed),
        text@ == addr@,
        call_ensures(HyperServer::<C>::serve, (server, text), served),
    ensures
        spawned.0.state == server.state,
        spawned.0.server_handle == server.handle,
        spawned.1 matches CreateStep::SpawnServer(first) && first@ == served@,
        failed.1 == CreateStep::<C>::Failed(SdkError::Transport(error)),
{
}

/// What is set up around a spawned server is set up with its own stores and sessions,
/// and its task, state and handle are those of the runtime that comes of it.
pub proof fn law_setting_up<C: Components>(
    creation: Creation<C>,
    task: C::ServerTask,
    error: C::PollingError,
    spawned: CreateStep<C>,
    subscribed: CreateStep<C>,
    not_subscribed: CreateStep<C>,
    forwarding: CreateStep<C>,
    polled: CreateStep<C>,
    not_polled: CreateStep<C>,
)
    requires
        call_ensures(Creation::<C>::after_spawn, (&creation, task), spawned),
        call_ensures(Creation::<C>::after_subscribe, (&creation, task, true), subscribed),
        call_ensures(Creation::<C>::after_subscribe, (&creation, task, false), not_subscribed),
        call_ensures(Creation::<C>::after_forwarding, (&creation, task), forwarding),
        call_ensures(Creation::<C>::after_polling, (&creation, task, Ok(())), polled),
        call_ensures(Creation::<C>::after_polling, (&creation, task, Err(error)), not_polled),
    ensures
        creation.state.task_store matches Some(store) ==> spawned == (CreateStep::<C>::Subscribe {
            task_store: store,
            server_task: task,
        }),
        creation.state.task_store is None ==> spawned == forwarding,
        subscribed == (CreateStep::<C>::ForwardStatusChanges { server_task: task }),
        not_subscribed == forwarding,
        creation.state.client_task_store matches Some(store) ==> (forwarding
            matches CreateStep::StartPolling { poller, server_task } && {
            &&& poller.client_task_store == store
            &&& poller.session_store == creation.state.session_store
            &&& server_task == task
        }),
        creation.state.client_task_store is None ==> forwarding == polled,
        polled matches CreateStep::Created(runtime) && {
            &&& runtime.state == creation.state
            &&& runtime.server_task == task
            &&& runtime.server_handle == creation.server_handle
        },
        not_polled == CreateStep::<C>::Failed(SdkError::TaskPolling(error)),
{
}

/// Waiting for a server gives what its background task came to.
pub proof fn law_await_server<C: Components>(
    joined: Result<TransportServerResult<()>, C::JoinError>,
    r: Result<(), SdkError<C>>,
)
    requires
        call_ensures(HyperRuntime::<C>::await_server, (joined,), r),
    ensures
        joined matches Ok(served) ==> {
            &&& served is Ok <==> r is Ok
            &&& served matches Err(error) ==> r == Err::<(), SdkError<C>>(
                SdkError::Transport(error),
            )
        },
        joined matches Err(error) ==> r == Err::<(), SdkError<C>>(SdkError::ServerTask(error)),
{
}

/// Starting gives the runtime of a server that listens or was stopped since, and for
/// any other the error that waiting for it gives.
pub proof fn law_start_runtime<C: Components>(
    runtime: HyperRuntime<C>,
    joined: Result<TransportServerResult<()>, C::JoinError>,
    awaited: Result<(), SdkError<C>>,
    listening: Result<HyperRuntime<C>, SdkError<C>>,
    ended: Result<HyperRuntime<C>, SdkError<C>>,
)
    requires
        call_ensures(HyperRuntime::<C>::await_server, (joined,), awaited),
        call_ensures(
            HyperServer::<C>::start_runtime,
            (runtime, StartOutcome::<C>::Listening),
            listening,
        ),
        call_ensures(
            HyperServer::<C>::start_runtime,
            (runtime, StartOutcome::<C>::Ended(joined)),
            ended,
        ),
    ensures
        listening == Ok::<HyperRuntime<C>, SdkError<C>>(runtime),
        awaited is Ok ==> ended == Ok::<HyperRuntime<C>, SdkError<C>>(runtime),
        awaited matches Err(error) ==> ended == Err::<HyperRuntime<C>, SdkError<C>>(error),
{
}

/// A runtime stops its own server, with the timeout that was given, lists its own
/// sessions, and hands out its own stores.
pub proof fn law_runtime_parts<C: Components>(
    runtime: HyperRuntime<C>,
    timeout: Option<Duration>,
    stop: ShutdownAction<C>,
    sessions: Arc<C::SessionStore>,
    task_store: Option<Arc<C::ServerTaskStore>>,
    client_task_store: Option<Arc<C::ClientTaskStore>>,
)
    requires
        call_ensures(HyperRuntime::<C>::graceful_shutdown, (&runtime, timeout), stop),
        call_ensures(HyperRuntime::<C>::sessions, (&runtime,), sessions),
        call_ensures(HyperRuntime::<C>::task_store, (&runtime,), task_store),
        call_ensures(HyperRuntime::<C>::client_task_store, (&runtime,), client_task_store),
    ensures
        stop == (ShutdownAction::<C>::GracefulShutdown { handle: runtime.server_handle, timeout }),
        sessions == runtime.state.session_store,
        task_store == runtime.state.task_store,
        client_task_store == runtime.state.client_task_store,
{
}

/// The runtime of a session is looked up by exactly the id that was given, where the
/// live sessions are listed; what is found is handed out, and where nothing is, the id
/// is named.
pub proof fn law_runtime_by_session<C: Components>(
    runtime: HyperRuntime<C>,
    session_id: SessionId,
    sessions: Arc<C::SessionStore>,
    lookup: SessionLookup<C>,
    session: Arc<C::SessionRuntime>,
    found: TransportServerResult<Arc<C::SessionRuntime>>,
    missing: TransportServerResult<Arc<C::SessionRuntime>>,
)
    requires
        call_ensures(HyperRuntime::<C>::sessions, (&runtime,), sessions),
        call_ensures(HyperRuntime::<C>::runtime_by_session, (&runtime, &session_id), lookup),
        call_ensures(SessionLookup::<C>::settle, (lookup, Some(session)), found),
        call_ensures(SessionLookup::<C>::settle, (lookup, None), missing),
    ensures
        lookup.session_id@ == session_id@,
        lookup.session_store == sessions,
        found == Ok::<Arc<C::SessionRuntime>, TransportServerError>(session),
        missing matches Err(TransportServerError::SessionIdInvalid(id)) && id@ == session_id@,
{
}

/// A call is delivered, unchanged, to the runtime that was found for its session, and
/// refused or dropped where none was.
pub proof fn law_deliver<C: Components>(
    sent: SessionCall<C>,
    session: Arc<C::SessionRuntime>,
    delivered: TransportServerResult<(Arc<C::SessionRuntime>, RuntimeCall)>,
    refused: TransportServerResult<(Arc<C::SessionRuntime>, RuntimeCall)>,
    passed_on: Option<(Arc<C::SessionRuntime>, RuntimeCall)>,
    dropped: Option<(Arc<C::SessionRuntime>, RuntimeCall)>,
)
    requires
        call_ensures(SessionCall::<C>::deliver, (sent, Some(session)), delivered),
        call_ensures(SessionCall::<C>::deliver, (sent, None), refused),
        call_ensures(SessionCall::<C>::deliver_or_drop, (sent, Some(session)), passed_on),
        call_ensures(SessionCall::<C>::deliver_or_drop, (sent, None), dropped),
    ensures
        delivered == Ok::<(Arc<C::SessionRuntime>, RuntimeCall), TransportServerError>(
            (session, sent.call),
        ),
        refused matches Err(TransportServerError::SessionIdInvalid(id)) && id
            == sent.lookup.session_id,
        passed_on == Some((session, sent.call)),
        dropped is None,
{
}

/// A status change is told, as it was reported, to the session of the task, and to
/// nobody where the task has none.
pub proof fn law_task_status_changed<C: Components>(
    state: McpAppState<C>,
    params: TaskStatusNotificationParams,
    session_id: Option<SessionId>,
    r: Option<SessionCall<C>>,
)
    requires
        call_ensures(McpAppState::<C>::task_status_changed, (&state, params, session_id), r),
    ensures
        r is Some <==> session_id is Some,
        r matches Some(sent) ==> {
            &&& Some(sent.lookup.session_id) == session_id
            &&& sent.lookup.session_store == state.session_store
            &&& sent.call == RuntimeCall::NotifyTaskStatus(params)
        },
{
}

/// A poller that was made for two stores asks for a task through the session that the
/// task belongs to, found in the one, and reports to the other. A task without a session,
/// or with one that is gone, is refused as an invalid request.
pub proof fn law_polling<C: Components>(
    client_task_store: Arc<C::ClientTaskStore>,
    session_store: Arc<C::SessionStore>,
    poller: TaskPoller<C>,
    task_id: String,
    session_id: SessionId,
    session: Arc<C::SessionRuntime>,
    without: PollStep<C>,
    pending: PendingPoll<C>,
    put: Result<PollCall<C>, RpcFailure>,
    gone: Result<PollCall<C>, RpcFailure>,
)
    requires
        call_ensures(
            HyperRuntime::<C>::task_poller_callback,
            (client_task_store, session_store),
            poller,
        ),
        call_ensures(TaskPoller::<C>::poll, (&poller, task_id, None), without),
        call_ensures(
            TaskPoller::<C>::poll,
            (&poller, task_id, Some(session_id)),
            PollStep::LookUp(pending),
        ),
        call_ensures(PendingPoll::<C>::deliver, (pending, Some(session)), put),
        call_ensures(PendingPoll::<C>::deliver, (pending, None), gone),
    ensures
        pending.lookup.session_id == session_id,
        pending.lookup.session_store == session_store,
        put matches Ok(call) && {
            &&& call.runtime == session
            &&& call.task_id == task_id
            &&& call.session_id == Some(session_id)
            &&& call.client_task_store == client_task_store
        },
        without matches PollStep::Refused(failure) && failure.code == -32600 && failure.message@
            == "No session id provided!"@,
        gone matches Err(failure) && failure.code == -32600 && failure.message@
            == "Invalid or broken session!"@,
{
}

} // verus!
