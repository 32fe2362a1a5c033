use std::sync::Arc;
use std::time::Duration;

use axum_server::Handle;
use vstd::prelude::*;

use crate::components::Components;
use crate::error::{SdkError, TransportServerResult};
use crate::outside::clone_handle;
use crate::polling::TaskPoller;
use crate::server::{share, HyperServer, McpAppState, ShutdownAction};
use crate::serving::{next_step, ServeStep};

verus! {

/// A server that runs in a background task.
pub struct HyperRuntime<C: Components> {
    pub state: Arc<McpAppState<C>>,
    pub server_task: C::ServerTask,
    pub server_handle: Handle,
}

/// What is to be done next to bring a server up.
pub enum CreateStep<C: Components> {
    /// Serve in a background task, beginning with this step, and hand the task to
    /// `Creation::after_spawn`.
    SpawnServer(ServeStep<C>),
    /// Subscribe to status changes in the task store, and tell
    /// `Creation::after_subscribe` whether it offers a subscription.
    Subscribe { task_store: Arc<C::ServerTaskStore>, server_task: C::ServerTask },
    /// In the background, hand every status change to
    /// `McpAppState::task_status_changed`; go on with
    /// `Creation::after_forwarding`.
    ForwardStatusChanges { server_task: C::ServerTask },
    /// Have the client task store poll with this poller, and hand the outcome to
    /// `Creation::after_polling`.
    StartPolling { poller: TaskPoller<C>, server_task: C::ServerTask },
    /// The server has been spawned, and all is set up around it. Whether it could
    /// start, its background task will tell: see `HyperServer::start_runtime`.
    Created(HyperRuntime<C>),
    /// The server could not be brought up, for this reason.
    Failed(SdkError<C>),
}

/// What has become of a server that was spawned.
pub enum StartOutcome<C: Components> {
    /// It is bound to its address and accepts connections.
    Listening,
    /// Its background task has ended, in this way, before it was seen to listen.
    Ended(Result<TransportServerResult<()>, C::JoinError>),
}

/// The result of a server whose background task has ended in the given way.
pub open spec fn joined_result<C: Components>(
    joined: Result<TransportServerResult<()>, C::JoinError>,
) -> Result<(), SdkError<C>> {
    match joined {
        Ok(Ok(_)) => Ok(()),
        Ok(Err(error)) => Err(SdkError::Transport(error)),
        Err(error) => Err(SdkError::ServerTask(error)),
    }
}

impl<C: Components> StartOutcome<C> {
    /// Why the server has not started; there is no reason if it has. A server that
    /// has been stopped since, and has ended well, had started.
    pub open spec fn reason(self) -> Option<SdkError<C>> {
        match self {
            StartOutcome::Listening => None,
            StartOutcome::Ended(joined) => match joined_result::<C>(joined) {
                Ok(_) => None,
                Err(error) => Some(error),
            },
        }
    }

    /// What starting comes to: the runtime, if the server has started, and otherwise
    /// the reason why it has not.
    pub open spec fn result(self, runtime: HyperRuntime<C>) -> Result<
        HyperRuntime<C>,
        SdkError<C>,
    > {
        match self.reason() {
            None => Ok(runtime),
            Some(error) => Err(error),
        }
    }
}

/// A server that is being brought up.
pub struct Creation<C: Components> {
    pub state: Arc<McpAppState<C>>,
    pub server_handle: Handle,
}

impl<C: Components> Creation<C> {
    /// The runtime, once it has its background task.
    pub open spec fn runtime(&self, server_task: C::ServerTask) -> HyperRuntime<C> {
        HyperRuntime { state: self.state, server_task, server_handle: self.server_handle }
    }

    /// What follows once status changes are taken care of: polling, if there is a
    /// store of client tasks.
    pub open spec fn polling_step(&self, server_task: C::ServerTask) -> CreateStep<C> {
        match self.state.client_task_store {
            Some(client_task_store) => CreateStep::StartPolling {
                poller: TaskPoller {
                    client_task_store,
                    session_store: self.state.session_store,
                },
                server_task,
            },
            None => CreateStep::Created(self.runtime(server_task)),
        }
    }

    /// What follows once the background task runs: a subscription, if there is a
    /// task store.
    pub open spec fn spawned_step(&self, server_task: C::ServerTask) -> CreateStep<C> {
        match self.state.task_store {
            Some(task_store) => CreateStep::Subscribe { task_store, server_task },
            None => self.polling_step(server_task),
        }
    }

    /// What follows once the task store has said whether it offers a subscription.
    pub open spec fn subscribed_step(
        &self,
        server_task: C::ServerTask,
        subscribed: bool,
    ) -> CreateStep<C> {
        if subscribed {
            CreateStep::ForwardStatusChanges { server_task }
        } else {
            self.polling_step(server_task)
        }
    }

    /// What follows once polling has started, or could not be started.
    pub open spec fn polled_step(
        &self,
        server_task: C::ServerTask,
        polling: Result<(), C::PollingError>,
    ) -> CreateStep<C> {
        match polling {
            Ok(_) => CreateStep::Created(self.runtime(server_task)),
            Err(error) => CreateStep::Failed(SdkError::TaskPolling(error)),
        }
    }

    fn created(&self, server_task: C::ServerTask) -> (step: CreateStep<C>)
        ensures
            step == CreateStep::<C>::Created(self.runtime(server_task)),
    {
        CreateStep::Created(
            HyperRuntime {
                state: Arc::clone(&self.state),
                server_task,
                server_handle: clone_handle(&self.server_handle),
            },
        )
    }

    fn start_polling(&self, server_task: C::ServerTask) -> (step: CreateStep<C>)
        ensures
            step == self.polling_step(server_task),
    {
        match &self.state.client_task_store {
            Some(client_task_store) => CreateStep::StartPolling {
                poller: HyperRuntime::<C>::task_poller_callback(
                    Arc::clone(client_task_store),
                    Arc::clone(&self.state.session_store),
                ),
                server_task,
            },
            None => self.created(server_task),
        }
    }

    /// Goes on once the server runs in its background task.
    pub fn after_spawn(&self, server_task: C::ServerTask) -> (step: CreateStep<C>)
        ensures
            step == self.spawned_step(server_task),
    {
        match &self.state.task_store {
            Some(task_store) => CreateStep::Subscribe {
                task_store: Arc::clone(task_store),
                server_task,
            },
            None => self.start_polling(server_task),
        }
    }

    /// Goes on once the task store has said whether it offers a subscription.
    pub fn after_subscribe(
        &self,
        server_task: C::ServerTask,
        subscribed: bool,
    ) -> (step: CreateStep<C>)
        ensures
            step == self.subscribed_step(server_task, subscribed),
    {
        if subscribed {
            CreateStep::ForwardStatusChanges { server_task }
        } else {
            self.start_polling(server_task)
        }
    }

    /// Goes on once status changes are being forwarded.
    pub fn after_forwarding(&self, server_task: C::ServerTask) -> (step: CreateStep<C>)
        ensures
            step == self.polling_step(server_task),
    {
        self.start_polling(server_task)
    }

    /// Goes on once polling has started, or could not be started.
    pub fn after_polling(
        &self,
        server_task: C::ServerTask,
        polling: Result<(), C::PollingError>,
    ) -> (step: CreateStep<C>)
        ensures
            step == self.polled_step(server_task, polling),
    {
        match polling {
            Ok(_) => self.created(server_task),
            Err(error) => CreateStep::Failed(SdkError::TaskPolling(error)),
        }
    }
}

impl<C: Components> HyperRuntime<C> {
    /// The poller that asks clients, through the sessions in `session_store`, for
    /// the status of the tasks in `client_task_store`.
    pub fn task_poller_callback(
        client_task_store: Arc<C::ClientTaskStore>,
        session_store: Arc<C::SessionStore>,
    ) -> (r: TaskPoller<C>)
        ensures
            r == (TaskPoller::<C> { client_task_store, session_store }),
    {
        TaskPoller { client_task_store, session_store }
    }

    /// Begins to bring a server up, once the search for its address has ended. It
    /// is spawned only where there is an address.
    pub fn create(server: HyperServer<C>, addr: TransportServerResult<String>) -> (r: (
        Creation<C>,
        CreateStep<C>,
    ))
        requires
            addr is Ok ==> server.servable(),
        ensures
            r.0.state == server.state,
            r.0.server_handle == server.handle,
            match addr {
                Ok(addr) => r.1 matches CreateStep::SpawnServer(step) && step@ == next_step(
                    server.serving(server.options.enable_ssl, addr@),
                ),
                Err(error) => r.1 == CreateStep::<C>::Failed(SdkError::Transport(error)),
            },
    {
        let creation = Creation { state: server.state(), server_handle: server.server_handle() };
        match addr {
            Ok(addr) => (creation, CreateStep::SpawnServer(server.serve(addr.as_str()))),
            Err(error) => (creation, CreateStep::Failed(SdkError::Transport(error))),
        }
    }

    /// The result of a server whose background task has ended in the given way.
    pub fn await_server(joined: Result<TransportServerResult<()>, C::JoinError>) -> (r: Result<
        (),
        SdkError<C>,
    >)
        ensures
            r == joined_result::<C>(joined),
            r is Ok <==> joined is Ok && joined->Ok_0 is Ok,
            joined matches Ok(Err(error)) ==> r == Err::<(), SdkError<C>>(
                SdkError::Transport(error),
            ),
            joined matches Err(error) ==> r == Err::<(), SdkError<C>>(SdkError::ServerTask(error)),
    {
        match joined {
            Ok(Ok(_)) => Ok(()),
            Ok(Err(error)) => Err(SdkError::Transport(error)),
            Err(error) => Err(SdkError::ServerTask(error)),
        }
    }

    /// What stops the server, giving open connections this long to end; without a
    /// timeout, as long as they take.
    pub fn graceful_shutdown(&self, timeout: Option<Duration>) -> (r: ShutdownAction<C>)
        ensures
            r == (ShutdownAction::<C>::GracefulShutdown { handle: self.server_handle, timeout }),
    {
        ShutdownAction::GracefulShutdown { handle: clone_handle(&self.server_handle), timeout }
    }

    /// The store of the tasks that this server executes.
    pub fn task_store(&self) -> (r: Option<Arc<C::ServerTaskStore>>)
        ensures
            r == self.state.task_store,
    {
        share(&self.state.task_store)
    }

    /// The store of the tasks that clients execute for this server.
    pub fn client_task_store(&self) -> (r: Option<Arc<C::ClientTaskStore>>)
        ensures
            r == self.state.client_task_store,
    {
        share(&self.state.client_task_store)
    }
}

impl<C: Components> HyperServer<C> {
    /// What starting comes to once the server has been created and it is known what
    /// has become of it: its runtime, if it has started, and otherwise the reason why
    /// it has not.
    pub fn start_runtime(runtime: HyperRuntime<C>, outcome: StartOutcome<C>) -> (r: Result<
        HyperRuntime<C>,
        SdkError<C>,
    >)
        ensures
            r == outcome.result(runtime),
            match r {
                Ok(started) => started == runtime && (outcome matches StartOutcome::Ended(joined)
                    ==> joined is Ok && joined->Ok_0 is Ok),
                Err(error) => outcome matches StartOutcome::Ended(joined) && match joined {
                    Ok(served) => served is Err && error == SdkError::<C>::Transport(
                        served->Err_0,
                    ),
                    Err(reason) => error == SdkError::<C>::ServerTask(reason),
                },
            },
    {
        match outcome {
            StartOutcome::Listening => Ok(runtime),
            StartOutcome::Ended(joined) => match HyperRuntime::<C>::await_server(joined) {
                Ok(_) => Ok(runtime),
                Err(error) => Err(error),
            },
        }
    }
}

} // verus!
