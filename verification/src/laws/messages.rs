use std::time::Duration;

use rust_mcp_schema::schema_utils::{
    CustomNotification, CustomRequest, NotificationFromServer, RequestFromServer,
};
use rust_mcp_schema::{
    CancelTaskParams, CancelledNotificationParams, CreateMessageRequestParams,
    ElicitCompleteParams, ElicitRequestParams, GetTaskParams, GetTaskPayloadParams,
    LoggingMessageNotificationParams, NotificationParams, ProgressNotificationParams,
    RequestParams, ResourceUpdatedNotificationParams, TaskStatusNotificationParams,
};
use vstd::prelude::*;

use crate::calls::{RuntimeCall, SessionCall, SessionId};
use crate::components::Components;
use crate::runtime::HyperRuntime;

verus! {

/// A request goes to the session that it was sent to, with its timeout.
pub proof fn law_send_request<C: Components>(
    runtime: HyperRuntime<C>,
    session_id: SessionId,
    request: RequestFromServer,
    timeout: Option<Duration>,
    sent: SessionCall<C>,
)
    requires
        call_ensures(HyperRuntime::<C>::send_request, (&runtime, &session_id, request, timeout), sent),
    ensures
        sent.lookup.session_id@ == session_id@,
        sent.lookup.session_store == runtime.state.session_store,
        sent.call == (RuntimeCall::Request { request, timeout }),
{
}

/// A prompt for input goes to the session that it was sent to.
pub proof fn law_request_elicitation<C: Components>(
    runtime: HyperRuntime<C>,
    session_id: SessionId,
    params: ElicitRequestParams,
    sent: SessionCall<C>,
)
    requires
        call_ensures(HyperRuntime::<C>::request_elicitation, (&runtime, &session_id, params), sent),
    ensures
        sent.lookup.session_id@ == session_id@,
        sent.lookup.session_store == runtime.state.session_store,
        sent.call == RuntimeCall::RequestElicitation(params),
{
}

/// A prompt for input, as a task, goes to the session that it was sent to.
pub proof fn law_request_elicitation_task<C: Components>(
    runtime: HyperRuntime<C>,
    session_id: SessionId,
    params: ElicitRequestParams,
    sent: SessionCall<C>,
)
    requires
        call_ensures(HyperRuntime::<C>::request_elicitation_task, (&runtime, &session_id, params), sent),
    ensures
        sent.lookup.session_id@ == session_id@,
        sent.lookup.session_store == runtime.state.session_store,
        sent.call == RuntimeCall::RequestElicitationTask(params),
{
}

/// The session that was meant is asked for its roots.
pub proof fn law_request_root_list<C: Components>(
    runtime: HyperRuntime<C>,
    session_id: SessionId,
    params: Option<RequestParams>,
    sent: SessionCall<C>,
)
    requires
        call_ensures(HyperRuntime::<C>::request_root_list, (&runtime, &session_id, params), sent),
    ensures
        sent.lookup.session_id@ == session_id@,
        sent.lookup.session_store == runtime.state.session_store,
        sent.call == RuntimeCall::RequestRootList(params),
{
}

/// A ping goes to the session that was meant, with its timeout.
pub proof fn law_ping<C: Components>(
    runtime: HyperRuntime<C>,
    session_id: SessionId,
    params: Option<RequestParams>,
    timeout: Option<Duration>,
    sent: SessionCall<C>,
)
    requires
        call_ensures(HyperRuntime::<C>::ping, (&runtime, &session_id, params, timeout), sent),
    ensures
        sent.lookup.session_id@ == session_id@,
        sent.lookup.session_store == runtime.state.session_store,
        sent.call == (RuntimeCall::Ping { params, timeout }),
{
}

/// A language model is sampled through the session that was meant.
pub proof fn law_request_message_creation<C: Components>(
    runtime: HyperRuntime<C>,
    session_id: SessionId,
    params: CreateMessageRequestParams,
    sent: SessionCall<C>,
)
    requires
        call_ensures(HyperRuntime::<C>::request_message_creation, (&runtime, &session_id, params), sent),
    ensures
        sent.lookup.session_id@ == session_id@,
        sent.lookup.session_store == runtime.state.session_store,
        sent.call == RuntimeCall::RequestMessageCreation(params),
{
}

/// The session that was meant is asked for the state of the task.
pub proof fn law_request_get_task<C: Components>(
    runtime: HyperRuntime<C>,
    session_id: SessionId,
    params: GetTaskParams,
    sent: SessionCall<C>,
)
    requires
        call_ensures(HyperRuntime::<C>::request_get_task, (&runtime, &session_id, params), sent),
    ensures
        sent.lookup.session_id@ == session_id@,
        sent.lookup.session_store == runtime.state.session_store,
        sent.call == RuntimeCall::RequestGetTask(params),
{
}

/// The session that was meant is asked for the result of the task.
pub proof fn law_request_get_task_payload<C: Components>(
    runtime: HyperRuntime<C>,
    session_id: SessionId,
    params: GetTaskPayloadParams,
    sent: SessionCall<C>,
)
    requires
        call_ensures(HyperRuntime::<C>::request_get_task_payload, (&runtime, &session_id, params), sent),
    ensures
        sent.lookup.session_id@ == session_id@,
        sent.lookup.session_store == runtime.state.session_store,
        sent.call == RuntimeCall::RequestGetTaskPayload(params),
{
}

/// The session that was meant is asked to cancel the task.
pub proof fn law_request_task_cancellation<C: Components>(
    runtime: HyperRuntime<C>,
    session_id: SessionId,
    params: CancelTaskParams,
    sent: SessionCall<C>,
)
    requires
        call_ensures(HyperRuntime::<C>::request_task_cancellation, (&runtime, &session_id, params), sent),
    ensures
        sent.lookup.session_id@ == session_id@,
        sent.lookup.session_store == runtime.state.session_store,
        sent.call == RuntimeCall::RequestTaskCancellation(params),
{
}

/// A custom request goes to the session that it was sent to.
pub proof fn law_request_custom<C: Components>(
    runtime: HyperRuntime<C>,
    session_id: SessionId,
    params: CustomRequest,
    sent: SessionCall<C>,
)
    requires
        call_ensures(HyperRuntime::<C>::request_custom, (&runtime, &session_id, params), sent),
    ensures
        sent.lookup.session_id@ == session_id@,
        sent.lookup.session_store == runtime.state.session_store,
        sent.call == RuntimeCall::RequestCustom(params),
{
}

/// The session that was meant is asked what its client said of itself.
pub proof fn law_client_info<C: Components>(
    runtime: HyperRuntime<C>,
    session_id: SessionId,
    sent: SessionCall<C>,
)
    requires
        call_ensures(HyperRuntime::<C>::client_info, (&runtime, &session_id), sent),
    ensures
        sent.lookup.session_id@ == session_id@,
        sent.lookup.session_store == runtime.state.session_store,
        sent.call == RuntimeCall::ClientInfo,
{
}

/// A notification goes to the session that it was sent to.
pub proof fn law_send_notification<C: Components>(
    runtime: HyperRuntime<C>,
    session_id: SessionId,
    notification: NotificationFromServer,
    sent: SessionCall<C>,
)
    requires
        call_ensures(HyperRuntime::<C>::send_notification, (&runtime, &session_id, notification), sent),
    ensures
        sent.lookup.session_id@ == session_id@,
        sent.lookup.session_store == runtime.state.session_store,
        sent.call == RuntimeCall::SendNotification(notification),
{
}

/// A log message goes to the session that it was sent to.
pub proof fn law_notify_log_message<C: Components>(
    runtime: HyperRuntime<C>,
    session_id: SessionId,
    params: LoggingMessageNotificationParams,
    sent: SessionCall<C>,
)
    requires
        call_ensures(HyperRuntime::<C>::notify_log_message, (&runtime, &session_id, params), sent),
    ensures
        sent.lookup.session_id@ == session_id@,
        sent.lookup.session_store == runtime.state.session_store,
        sent.call == RuntimeCall::NotifyLogMessage(params),
{
}

/// The session that was meant is told that the prompts have changed.
pub proof fn law_notify_prompt_list_changed<C: Components>(
    runtime: HyperRuntime<C>,
    session_id: SessionId,
    params: Option<NotificationParams>,
    sent: SessionCall<C>,
)
    requires
        call_ensures(HyperRuntime::<C>::notify_prompt_list_changed, (&runtime, &session_id, params), sent),
    ensures
        sent.lookup.session_id@ == session_id@,
        sent.lookup.session_store == runtime.state.session_store,
        sent.call == RuntimeCall::NotifyPromptListChanged(params),
{
}

/// The session that was meant is told that the resources have changed.
pub proof fn law_notify_resource_list_changed<C: Components>(
    runtime: HyperRuntime<C>,
    session_id: SessionId,
    params: Option<NotificationParams>,
    sent: SessionCall<C>,
)
    requires
        call_ensures(HyperRuntime::<C>::notify_resource_list_changed, (&runtime, &session_id, params), sent),
    ensures
        sent.lookup.session_id@ == session_id@,
        sent.lookup.session_store == runtime.state.session_store,
        sent.call == RuntimeCall::NotifyResourceListChanged(params),
{
}

/// The session that was meant is told that the resource has changed.
pub proof fn law_notify_resource_updated<C: Components>(
    runtime: HyperRuntime<C>,
    session_id: SessionId,
    params: ResourceUpdatedNotificationParams,
    sent: SessionCall<C>,
)
    requires
        call_ensures(HyperRuntime::<C>::notify_resource_updated, (&runtime, &session_id, params), sent),
    ensures
        sent.lookup.session_id@ == session_id@,
        sent.lookup.session_store == runtime.state.session_store,
        sent.call == RuntimeCall::NotifyResourceUpdated(params),
{
}

/// The session that was meant is told that the tools have changed.
pub proof fn law_notify_tool_list_changed<C: Components>(
    runtime: HyperRuntime<C>,
    session_id: SessionId,
    params: Option<NotificationParams>,
    sent: SessionCall<C>,
)
    requires
        call_ensures(HyperRuntime::<C>::notify_tool_list_changed, (&runtime, &session_id, params), sent),
    ensures
        sent.lookup.session_id@ == session_id@,
        sent.lookup.session_store == runtime.state.session_store,
        sent.call == RuntimeCall::NotifyToolListChanged(params),
{
}

/// The session that was meant is told of the cancellation.
pub proof fn law_notify_cancellation<C: Components>(
    runtime: HyperRuntime<C>,
    session_id: SessionId,
    params: CancelledNotificationParams,
    sent: SessionCall<C>,
)
    requires
        call_ensures(HyperRuntime::<C>::notify_cancellation, (&runtime, &session_id, params), sent),
    ensures
        sent.lookup.session_id@ == session_id@,
        sent.lookup.session_store == runtime.state.session_store,
        sent.call == RuntimeCall::NotifyCancellation(params),
{
}

/// The session that was meant is told of the progress.
pub proof fn law_notify_progress<C: Components>(
    runtime: HyperRuntime<C>,
    session_id: SessionId,
    params: ProgressNotificationParams,
    sent: SessionCall<C>,
)
    requires
        call_ensures(HyperRuntime::<C>::notify_progress, (&runtime, &session_id, params), sent),
    ensures
        sent.lookup.session_id@ == session_id@,
        sent.lookup.session_store == runtime.state.session_store,
        sent.call == RuntimeCall::NotifyProgress(params),
{
}

/// The session that was meant is told the status of the task.
pub proof fn law_notify_task_status<C: Components>(
    runtime: HyperRuntime<C>,
    session_id: SessionId,
    params: TaskStatusNotificationParams,
    sent: SessionCall<C>,
)
    requires
        call_ensures(HyperRuntime::<C>::notify_task_status, (&runtime, &session_id, params), sent),
    ensures
        sent.lookup.session_id@ == session_id@,
        sent.lookup.session_store == runtime.state.session_store,
        sent.call == RuntimeCall::NotifyTaskStatus(params),
{
}

/// The session that was meant is told that the elicitation has completed.
pub proof fn law_notify_elicitation_completed<C: Components>(
    runtime: HyperRuntime<C>,
    session_id: SessionId,
    params: ElicitCompleteParams,
    sent: SessionCall<C>,
)
    requires
        call_ensures(HyperRuntime::<C>::notify_elicitation_completed, (&runtime, &session_id, params), sent),
    ensures
        sent.lookup.session_id@ == session_id@,
        sent.lookup.session_store == runtime.state.session_store,
        sent.call == RuntimeCall::NotifyElicitationCompleted(params),
{
}

/// A custom notification goes to the session that it was sent to.
pub proof fn law_notify_custom<C: Components>(
    runtime: HyperRuntime<C>,
    session_id: SessionId,
    params: CustomNotification,
    sent: SessionCall<C>,
)
    requires
        call_ensures(HyperRuntime::<C>::notify_custom, (&runtime, &session_id, params), sent),
    ensures
        sent.lookup.session_id@ == session_id@,
        sent.lookup.session_store == runtime.state.session_store,
        sent.call == RuntimeCall::NotifyCustom(params),
{
}

/// `list_roots` sends what `request_root_list` sends, to the same session.
pub proof fn law_list_roots<C: Components>(
    runtime: HyperRuntime<C>,
    session_id: SessionId,
    params: Option<RequestParams>,
    former: SessionCall<C>,
    present: SessionCall<C>,
)
    requires
        call_ensures(HyperRuntime::<C>::list_roots, (&runtime, &session_id, params), former),
        call_ensures(HyperRuntime::<C>::request_root_list, (&runtime, &session_id, params), present),
    ensures
        former.lookup.session_id@ == session_id@,
        former.lookup.session_id@ == present.lookup.session_id@,
        former.lookup.session_store == present.lookup.session_store,
        former.call == present.call,
{
}

/// `elicit_input` sends what `request_elicitation` sends, to the same session.
pub proof fn law_elicit_input<C: Components>(
    runtime: HyperRuntime<C>,
    session_id: SessionId,
    params: ElicitRequestParams,
    former: SessionCall<C>,
    present: SessionCall<C>,
)
    requires
        call_ensures(HyperRuntime::<C>::elicit_input, (&runtime, &session_id, params), former),
        call_ensures(HyperRuntime::<C>::request_elicitation, (&runtime, &session_id, params), present),
    ensures
        former.lookup.session_id@ == session_id@,
        former.lookup.session_id@ == present.lookup.session_id@,
        former.lookup.session_store == present.lookup.session_store,
        former.call == present.call,
{
}

/// `create_message` sends what `request_message_creation` sends, to the same session.
pub proof fn law_create_message<C: Components>(
    runtime: HyperRuntime<C>,
    session_id: SessionId,
    params: CreateMessageRequestParams,
    former: SessionCall<C>,
    present: SessionCall<C>,
)
    requires
        call_ensures(HyperRuntime::<C>::create_message, (&runtime, &session_id, params), former),
        call_ensures(HyperRuntime::<C>::request_message_creation, (&runtime, &session_id, params), present),
    ensures
        former.lookup.session_id@ == session_id@,
        former.lookup.session_id@ == present.lookup.session_id@,
        former.lookup.session_store == present.lookup.session_store,
        former.call == present.call,
{
}

/// `send_tool_list_changed` sends what `notify_tool_list_changed` sends, to the same session.
pub proof fn law_send_tool_list_changed<C: Components>(
    runtime: HyperRuntime<C>,
    session_id: SessionId,
    params: Option<NotificationParams>,
    former: SessionCall<C>,
    present: SessionCall<C>,
)
    requires
        call_ensures(HyperRuntime::<C>::send_tool_list_changed, (&runtime, &session_id, params), former),
        call_ensures(HyperRuntime::<C>::notify_tool_list_changed, (&runtime, &session_id, params), present),
    ensures
        former.lookup.session_id@ == session_id@,
        former.lookup.session_id@ == present.lookup.session_id@,
        former.lookup.session_store == present.lookup.session_store,
        former.call == present.call,
{
}

/// `send_resource_updated` sends what `notify_resource_updated` sends, to the same session.
pub proof fn law_send_resource_updated<C: Components>(
    runtime: HyperRuntime<C>,
    session_id: SessionId,
    params: ResourceUpdatedNotificationParams,
    former: SessionCall<C>,
    present: SessionCall<C>,
)
    requires
        call_ensures(HyperRuntime::<C>::send_resource_updated, (&runtime, &session_id, params), former),
        call_ensures(HyperRuntime::<C>::notify_resource_updated, (&runtime, &session_id, params), present),
    ensures
        former.lookup.session_id@ == session_id@,
        former.lookup.session_id@ == present.lookup.session_id@,
        former.lookup.session_store == present.lookup.session_store,
        former.call == present.call,
{
}

/// `send_resource_list_changed` sends what `notify_resource_list_changed` sends, to the same session.
pub proof fn law_send_resource_list_changed<C: Components>(
    runtime: HyperRuntime<C>,
    session_id: SessionId,
    params: Option<NotificationParams>,
    former: SessionCall<C>,
    present: SessionCall<C>,
)
    requires
        call_ensures(HyperRuntime::<C>::send_resource_list_changed, (&runtime, &session_id, params), former),
        call_ensures(HyperRuntime::<C>::notify_resource_list_changed, (&runtime, &session_id, params), present),
    ensures
        former.lookup.session_id@ == session_id@,
        former.lookup.session_id@ == present.lookup.session_id@,
        former.lookup.session_store == present.lookup.session_store,
        former.call == present.call,
{
}

/// `send_prompt_list_changed` sends what `notify_prompt_list_changed` sends, to the same session.
pub proof fn law_send_prompt_list_changed<C: Components>(
    runtime: HyperRuntime<C>,
    session_id: SessionId,
    params: Option<NotificationParams>,
    former: SessionCall<C>,
    present: SessionCall<C>,
)
    requires
        call_ensures(HyperRuntime::<C>::send_prompt_list_changed, (&runtime, &session_id, params), former),
        call_ensures(HyperRuntime::<C>::notify_prompt_list_changed, (&runtime, &session_id, params), present),
    ensures
        former.lookup.session_id@ == session_id@,
        former.lookup.session_id@ == present.lookup.session_id@,
        former.lookup.session_store == present.lookup.session_store,
        former.call == present.call,
{
}

/// `send_logging_message` sends what `notify_log_message` sends, to the same session.
pub proof fn law_send_logging_message<C: Components>(
    runtime: HyperRuntime<C>,
    session_id: SessionId,
    params: LoggingMessageNotificationParams,
    former: SessionCall<C>,
    present: SessionCall<C>,
)
    requires
        call_ensures(HyperRuntime::<C>::send_logging_message, (&runtime, &session_id, params), former),
        call_ensures(HyperRuntime::<C>::notify_log_message, (&runtime, &session_id, params), present),
    ensures
        former.lookup.session_id@ == session_id@,
        former.lookup.session_id@ == present.lookup.session_id@,
        former.lookup.session_store == present.lookup.session_store,
        former.call == present.call,
{
}

} // verus!
