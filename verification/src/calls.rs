use std::sync::Arc;
use std::time::Duration;

use rust_mcp_schema::schema_utils::{
    CustomNotification, CustomRequest, NotificationFromServer, RequestFromServer,
};
use rust_mcp_schema::{
    CancelTaskParams, CancelledNotificationParams, CreateMessageRequestParams,
    ElicitCompleteParams, ElicitRequestParams, GetTaskParams, GetTaskPayloadParams,
    LoggingMessageNotificationParams, NotificationParams, ProgressNotificationParams,
    RequestParams, ResourceUpdatedNotificationParams, TaskStatusNotificationParams,
};
use vstd::prelude::*;

use crate::components::Components;
use crate::error::{outcome, ErrorView, TransportServerError, TransportServerResult};
use crate::runtime::HyperRuntime;
use crate::server::McpAppState;

verus! {

/// What the runtime of a session is asked to do.
pub enum RuntimeCall {
    /// Send a request and wait for its answer.
    Request { request: RequestFromServer, timeout: Option<Duration> },
    /// Send a notification.
    SendNotification(NotificationFromServer),
    /// Tell what the client said of itself when the session began.
    ClientInfo,
    /// Ask the user of the client for input.
    RequestElicitation(ElicitRequestParams),
    /// Ask the user of the client for input, as a task.
    RequestElicitationTask(ElicitRequestParams),
    /// Ask for the roots that the client offers.
    RequestRootList(Option<RequestParams>),
    /// Check that the client is still there.
    Ping { params: Option<RequestParams>, timeout: Option<Duration> },
    /// Sample a language model through the client.
    RequestMessageCreation(CreateMessageRequestParams),
    /// Ask for the state of a task.
    RequestGetTask(GetTaskParams),
    /// Ask for the result of a completed task.
    RequestGetTaskPayload(GetTaskPayloadParams),
    /// Ask for a task to be cancelled.
    RequestTaskCancellation(CancelTaskParams),
    /// Send a request with a method name of its own.
    RequestCustom(CustomRequest),
    /// Send a log message.
    NotifyLogMessage(LoggingMessageNotificationParams),
    /// Tell that the list of prompts has changed.
    NotifyPromptListChanged(Option<NotificationParams>),
    /// Tell that the list of resources has changed.
    NotifyResourceListChanged(Option<NotificationParams>),
    /// Tell that a resource has changed.
    NotifyResourceUpdated(ResourceUpdatedNotificationParams),
    /// Tell that the list of tools has changed.
    NotifyToolListChanged(Option<NotificationParams>),
    /// Tell that a request is cancelled.
    NotifyCancellation(CancelledNotificationParams),
    /// Tell how far a long-running request has come.
    NotifyProgress(ProgressNotificationParams),
    /// Tell that the status of a task has changed.
    NotifyTaskStatus(TaskStatusNotificationParams),
    /// Tell that an out-of-band elicitation has completed.
    NotifyElicitationCompleted(ElicitCompleteParams),
    /// Send a notification with a method name of its own.
    NotifyCustom(CustomNotification),
}

/// The id of a session.
pub type SessionId = String;

/// A session that is to be looked up in a store before anything can be sent to
/// it.
pub struct SessionLookup<C: Components> {
    pub session_store: Arc<C::SessionStore>,
    pub session_id: SessionId,
}

/// What looking up the session with the given id comes to.
pub open spec fn lookup_result<R>(session_id: Seq<char>, found: Option<R>) -> Result<R, ErrorView> {
    match found {
        Some(runtime) => Ok(runtime),
        None => Err(ErrorView::SessionIdInvalid(session_id)),
    }
}

impl<C: Components> SessionLookup<C> {
    /// Goes on once the store has said whether it knows the session.
    pub fn settle(self, found: Option<Arc<C::SessionRuntime>>) -> (r: TransportServerResult<
        Arc<C::SessionRuntime>,
    >)
        ensures
            outcome(r) == lookup_result(self.session_id@, found),
            r == match found {
                Some(runtime) => Ok::<Arc<C::SessionRuntime>, TransportServerError>(runtime),
                None => Err(TransportServerError::SessionIdInvalid(self.session_id)),
            },
    {
        match found {
            Some(runtime) => Ok(runtime),
            None => Err(TransportServerError::SessionIdInvalid(self.session_id)),
        }
    }
}

/// Something that the runtime of a session is to do, once the session has been
/// looked up.
pub struct SessionCall<C: Components> {
    pub lookup: SessionLookup<C>,
    pub call: RuntimeCall,
}

/// What becomes of a call to the session with the given id: the runtime that was
/// found performs it, and without one it is refused.
pub open spec fn delivery<R>(session_id: Seq<char>, call: RuntimeCall, found: Option<R>) -> Result<
    (R, RuntimeCall),
    ErrorView,
> {
    match found {
        Some(runtime) => Ok((runtime, call)),
        None => Err(ErrorView::SessionIdInvalid(session_id)),
    }
}

/// What becomes of a call that is dropped where no runtime is found.
pub open spec fn delivery_or_drop<R>(call: RuntimeCall, found: Option<R>) -> Option<
    (R, RuntimeCall),
> {
    match found {
        Some(runtime) => Some((runtime, call)),
        None => None,
    }
}

impl<C: Components> SessionCall<C> {
    /// Goes on once the store has said whether it knows the session: hands out the
    /// runtime together with what it is to do.
    pub fn deliver(self, found: Option<Arc<C::SessionRuntime>>) -> (r: TransportServerResult<
        (Arc<C::SessionRuntime>, RuntimeCall),
    >)
        ensures
            outcome(r) == delivery(self.lookup.session_id@, self.call, found),
            r == match found {
                Some(runtime) => Ok::<(Arc<C::SessionRuntime>, RuntimeCall), TransportServerError>(
                    (runtime, self.call),
                ),
                None => Err(TransportServerError::SessionIdInvalid(self.lookup.session_id)),
            },
    {
        match self.lookup.settle(found) {
            Ok(runtime) => Ok((runtime, self.call)),
            Err(error) => Err(error),
        }
    }

    /// Like `deliver`, for a call that is dropped where the session is gone.
    pub fn deliver_or_drop(self, found: Option<Arc<C::SessionRuntime>>) -> (r: Option<
        (Arc<C::SessionRuntime>, RuntimeCall),
    >)
        ensures
            r == delivery_or_drop(self.call, found),
            r == match found {
                Some(runtime) => Some((runtime, self.call)),
                None => None,
            },
    {
        match self.deliver(found) {
            Ok(delivered) => Some(delivered),
            Err(_) => None,
        }
    }
}

impl<C: Components> McpAppState<C> {
    /// The notification that the status of a task has changed, addressed to the
    /// session that the task belongs to, if there is one.
    pub open spec fn status_notification(
        &self,
        params: TaskStatusNotificationParams,
        session_id: Option<SessionId>,
    ) -> Option<SessionCall<C>> {
        match session_id {
            Some(id) => Some(
                SessionCall {
                    lookup: SessionLookup { session_store: self.session_store, session_id: id },
                    call: RuntimeCall::NotifyTaskStatus(params),
                },
            ),
            None => None,
        }
    }

    /// What is to be sent where the status of a task has changed: a notification
    /// to the session that the task belongs to, and nothing where it belongs to
    /// none.
    pub fn task_status_changed(
        &self,
        params: TaskStatusNotificationParams,
        session_id: Option<SessionId>,
    ) -> (r: Option<SessionCall<C>>)
        ensures
            r == self.status_notification(params, session_id),
            r is Some <==> session_id is Some,
            r matches Some(sent) ==> {
                &&& sent.lookup.session_store == self.session_store
                &&& Some(sent.lookup.session_id) == session_id
                &&& sent.call == RuntimeCall::NotifyTaskStatus(params)
            },
    {
        match session_id {
            Some(session_id) => Some(
                SessionCall {
                    lookup: SessionLookup {
                        session_store: Arc::clone(&self.session_store),
                        session_id,
                    },
                    call: RuntimeCall::NotifyTaskStatus(params),
                },
            ),
            None => None,
        }
    }
}

impl<C: Components> HyperRuntime<C> {
    /// Whether `lookup` looks for the session with the given id among the sessions
    /// of this server.
    pub open spec fn looks_up(&self, lookup: SessionLookup<C>, session_id: Seq<char>) -> bool {
        &&& lookup.session_store == self.state.session_store
        &&& lookup.session_id@ == session_id
    }

    /// Whether `sent` is `call`, addressed to the session with the given id among
    /// the sessions of this server.
    pub open spec fn addresses(
        &self,
        sent: SessionCall<C>,
        session_id: Seq<char>,
        call: RuntimeCall,
    ) -> bool {
        &&& self.looks_up(sent.lookup, session_id)
        &&& sent.call == call
    }

    /// The store whose keys are the ids of the live sessions. What it lists, and that
    /// it lists each id once, lies with the store.
    pub fn sessions(&self) -> (r: Arc<C::SessionStore>)
        ensures
            r == self.state.session_store,
    {
        Arc::clone(&self.state.session_store)
    }

    /// Looks for the runtime of the session with the given id.
    pub fn runtime_by_session(&self, session_id: &SessionId) -> (r: SessionLookup<C>)
        ensures
            self.looks_up(r, session_id@),
            r.session_store == self.state.session_store,
            r.session_id@ == session_id@,
    {
        SessionLookup {
            session_store: Arc::clone(&self.state.session_store),
            session_id: session_id.clone(),
        }
    }

    fn call(&self, session_id: &SessionId, call: RuntimeCall) -> (r: SessionCall<C>)
        ensures
            self.addresses(r, session_id@, call),
            r.lookup.session_store == self.state.session_store,
            r.lookup.session_id@ == session_id@,
            r.call == call,
    {
        SessionCall { lookup: self.runtime_by_session(session_id), call }
    }

    /// Sends a request to the client and waits for its answer.
    pub fn send_request(
        &self,
        session_id: &SessionId,
        request: RequestFromServer,
        timeout: Option<Duration>,
    ) -> (r: SessionCall<C>)
        ensures
            self.addresses(r, session_id@, (RuntimeCall::Request { request, timeout })),
    {
        self.call(session_id, RuntimeCall::Request { request, timeout })
    }

    /// Sends a notification to the client.
    pub fn send_notification(
        &self,
        session_id: &SessionId,
        notification: NotificationFromServer,
    ) -> (r: SessionCall<C>)
        ensures
            self.addresses(r, session_id@, RuntimeCall::SendNotification(notification)),
    {
        self.call(session_id, RuntimeCall::SendNotification(notification))
    }

    /// What the client said of itself when the session began.
    pub fn client_info(&self, session_id: &SessionId) -> (r: SessionCall<C>)
        ensures
            self.addresses(r, session_id@, RuntimeCall::ClientInfo),
    {
        self.call(session_id, RuntimeCall::ClientInfo)
    }

    /// Prompts the user of the client for input.
    pub fn request_elicitation(
        &self,
        session_id: &SessionId,
        params: ElicitRequestParams,
    ) -> (r: SessionCall<C>)
        ensures
            self.addresses(r, session_id@, RuntimeCall::RequestElicitation(params)),
    {
        self.call(session_id, RuntimeCall::RequestElicitation(params))
    }

    /// Prompts the user of the client for input, as a task.
    pub fn request_elicitation_task(
        &self,
        session_id: &SessionId,
        params: ElicitRequestParams,
    ) -> (r: SessionCall<C>)
        ensures
            self.addresses(r, session_id@, RuntimeCall::RequestElicitationTask(params)),
    {
        self.call(session_id, RuntimeCall::RequestElicitationTask(params))
    }

    /// Asks the client for the roots that the server may operate on.
    pub fn request_root_list(
        &self,
        session_id: &SessionId,
        params: Option<RequestParams>,
    ) -> (r: SessionCall<C>)
        ensures
            self.addresses(r, session_id@, RuntimeCall::RequestRootList(params)),
    {
        self.call(session_id, RuntimeCall::RequestRootList(params))
    }

    /// Checks that the client is still alive.
    pub fn ping(
        &self,
        session_id: &SessionId,
        params: Option<RequestParams>,
        timeout: Option<Duration>,
    ) -> (r: SessionCall<C>)
        ensures
            self.addresses(r, session_id@, (RuntimeCall::Ping { params, timeout })),
    {
        self.call(session_id, RuntimeCall::Ping { params, timeout })
    }

    /// Samples a language model through the client.
    pub fn request_message_creation(
        &self,
        session_id: &SessionId,
        params: CreateMessageRequestParams,
    ) -> (r: SessionCall<C>)
        ensures
            self.addresses(r, session_id@, RuntimeCall::RequestMessageCreation(params)),
    {
        self.call(session_id, RuntimeCall::RequestMessageCreation(params))
    }

    /// Asks the client for the state of a task.
    pub fn request_get_task(
        &self,
        session_id: &SessionId,
        params: GetTaskParams,
    ) -> (r: SessionCall<C>)
        ensures
            self.addresses(r, session_id@, RuntimeCall::RequestGetTask(params)),
    {
        self.call(session_id, RuntimeCall::RequestGetTask(params))
    }

    /// Asks the client for the result of a completed task.
    pub fn request_get_task_payload(
        &self,
        session_id: &SessionId,
        params: GetTaskPayloadParams,
    ) -> (r: SessionCall<C>)
        ensures
            self.addresses(r, session_id@, RuntimeCall::RequestGetTaskPayload(params)),
    {
        self.call(session_id, RuntimeCall::RequestGetTaskPayload(params))
    }

    /// Asks the client to cancel a task.
    pub fn request_task_cancellation(
        &self,
        session_id: &SessionId,
        params: CancelTaskParams,
    ) -> (r: SessionCall<C>)
        ensures
            self.addresses(r, session_id@, RuntimeCall::RequestTaskCancellation(params)),
    {
        self.call(session_id, RuntimeCall::RequestTaskCancellation(params))
    }

    /// Sends a request with a method name of its own.
    pub fn request_custom(
        &self,
        session_id: &SessionId,
        params: CustomRequest,
    ) -> (r: SessionCall<C>)
        ensures
            self.addresses(r, session_id@, RuntimeCall::RequestCustom(params)),
    {
        self.call(session_id, RuntimeCall::RequestCustom(params))
    }

    /// Sends a log message to the client.
    pub fn notify_log_message(
        &self,
        session_id: &SessionId,
        params: LoggingMessageNotificationParams,
    ) -> (r: SessionCall<C>)
        ensures
            self.addresses(r, session_id@, RuntimeCall::NotifyLogMessage(params)),
    {
        self.call(session_id, RuntimeCall::NotifyLogMessage(params))
    }

    /// Tells the client that the list of prompts has changed.
    pub fn notify_prompt_list_changed(
        &self,
        session_id: &SessionId,
        params: Option<NotificationParams>,
    ) -> (r: SessionCall<C>)
        ensures
            self.addresses(r, session_id@, RuntimeCall::NotifyPromptListChanged(params)),
    {
        self.call(session_id, RuntimeCall::NotifyPromptListChanged(params))
    }

    /// Tells the client that the list of resources has changed.
    pub fn notify_resource_list_changed(
        &self,
        session_id: &SessionId,
        params: Option<NotificationParams>,
    ) -> (r: SessionCall<C>)
        ensures
            self.addresses(r, session_id@, RuntimeCall::NotifyResourceListChanged(params)),
    {
        self.call(session_id, RuntimeCall::NotifyResourceListChanged(params))
    }

    /// Tells the client that a resource has changed.
    pub fn notify_resource_updated(
        &self,
        session_id: &SessionId,
        params: ResourceUpdatedNotificationParams,
    ) -> (r: SessionCall<C>)
        ensures
            self.addresses(r, session_id@, RuntimeCall::NotifyResourceUpdated(params)),
    {
        self.call(session_id, RuntimeCall::NotifyResourceUpdated(params))
    }

    /// Tells the client that the list of tools has changed.
    pub fn notify_tool_list_changed(
        &self,
        session_id: &SessionId,
        params: Option<NotificationParams>,
    ) -> (r: SessionCall<C>)
        ensures
            self.addresses(r, session_id@, RuntimeCall::NotifyToolListChanged(params)),
    {
        self.call(session_id, RuntimeCall::NotifyToolListChanged(params))
    }

    /// Tells the client that a request issued before is cancelled.
    pub fn notify_cancellation(
        &self,
        session_id: &SessionId,
        params: CancelledNotificationParams,
    ) -> (r: SessionCall<C>)
        ensures
            self.addresses(r, session_id@, RuntimeCall::NotifyCancellation(params)),
    {
        self.call(session_id, RuntimeCall::NotifyCancellation(params))
    }

    /// Tells the client how far a long-running request has come.
    pub fn notify_progress(
        &self,
        session_id: &SessionId,
        params: ProgressNotificationParams,
    ) -> (r: SessionCall<C>)
        ensures
            self.addresses(r, session_id@, RuntimeCall::NotifyProgress(params)),
    {
        self.call(session_id, RuntimeCall::NotifyProgress(params))
    }

    /// Tells the client that the status of a task has changed.
    pub fn notify_task_status(
        &self,
        session_id: &SessionId,
        params: TaskStatusNotificationParams,
    ) -> (r: SessionCall<C>)
        ensures
            self.addresses(r, session_id@, RuntimeCall::NotifyTaskStatus(params)),
    {
        self.call(session_id, RuntimeCall::NotifyTaskStatus(params))
    }

    /// Tells the client that an out-of-band elicitation has completed.
    pub fn notify_elicitation_completed(
        &self,
        session_id: &SessionId,
        params: ElicitCompleteParams,
    ) -> (r: SessionCall<C>)
        ensures
            self.addresses(r, session_id@, RuntimeCall::NotifyElicitationCompleted(params)),
    {
        self.call(session_id, RuntimeCall::NotifyElicitationCompleted(params))
    }

    /// Sends a notification with a method name of its own.
    pub fn notify_custom(
        &self,
        session_id: &SessionId,
        params: CustomNotification,
    ) -> (r: SessionCall<C>)
        ensures
            self.addresses(r, session_id@, RuntimeCall::NotifyCustom(params)),
    {
        self.call(session_id, RuntimeCall::NotifyCustom(params))
    }

    /// Former name of `request_root_list`.
    pub fn list_roots(
        &self,
        session_id: &SessionId,
        params: Option<RequestParams>,
    ) -> (r: SessionCall<C>)
        ensures
            self.addresses(r, session_id@, RuntimeCall::RequestRootList(params)),
    {
        self.request_root_list(session_id, params)
    }

    /// Former name of `request_elicitation`.
    pub fn elicit_input(
        &self,
        session_id: &SessionId,
        params: ElicitRequestParams,
    ) -> (r: SessionCall<C>)
        ensures
            self.addresses(r, session_id@, RuntimeCall::RequestElicitation(params)),
    {
        self.request_elicitation(session_id, params)
    }

    /// Former name of `request_message_creation`.
    pub fn create_message(
        &self,
        session_id: &SessionId,
        params: CreateMessageRequestParams,
    ) -> (r: SessionCall<C>)
        ensures
            self.addresses(r, session_id@, RuntimeCall::RequestMessageCreation(params)),
    {
        self.request_message_creation(session_id, params)
    }

    /// Former name of `notify_tool_list_changed`.
    pub fn send_tool_list_changed(
        &self,
        session_id: &SessionId,
        params: Option<NotificationParams>,
    ) -> (r: SessionCall<C>)
        ensures
            self.addresses(r, session_id@, RuntimeCall::NotifyToolListChanged(params)),
    {
        self.notify_tool_list_changed(session_id, params)
    }

    /// Former name of `notify_resource_updated`.
    pub fn send_resource_updated(
        &self,
        session_id: &SessionId,
        params: ResourceUpdatedNotificationParams,
    ) -> (r: SessionCall<C>)
        ensures
            self.addresses(r, session_id@, RuntimeCall::NotifyResourceUpdated(params)),
    {
        self.notify_resource_updated(session_id, params)
    }

    /// Former name of `notify_resource_list_changed`.
    pub fn send_resource_list_changed(
        &self,
        session_id: &SessionId,
        params: Option<NotificationParams>,
    ) -> (r: SessionCall<C>)
        ensures
            self.addresses(r, session_id@, RuntimeCall::NotifyResourceListChanged(params)),
    {
        self.notify_resource_list_changed(session_id, params)
    }

    /// Former name of `notify_prompt_list_changed`.
    pub fn send_prompt_list_changed(
        &self,
        session_id: &SessionId,
        params: Option<NotificationParams>,
    ) -> (r: SessionCall<C>)
        ensures
            self.addresses(r, session_id@, RuntimeCall::NotifyPromptListChanged(params)),
    {
        self.notify_prompt_list_changed(session_id, params)
    }

    /// Former name of `notify_log_message`.
    pub fn send_logging_message(
        &self,
        session_id: &SessionId,
        params: LoggingMessageNotificationParams,
    ) -> (r: SessionCall<C>)
        ensures
            self.addresses(r, session_id@, RuntimeCall::NotifyLogMessage(params)),
    {
        self.notify_log_message(session_id, params)
    }
}

} // verus!
