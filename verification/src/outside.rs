use std::time::Duration;

use vstd::prelude::*;

verus! {

/// The handle through which an `axum_server` server is told to stop.
#[verifier::external_type_specification]
#[verifier::external_body]
pub struct ExHandle(axum_server::Handle);

/// The handlers that `axum` runs for one path, chosen by HTTP method.
#[verifier::external_type_specification]
#[verifier::external_body]
#[verifier::reject_recursive_types(S)]
#[verifier::reject_recursive_types(E)]
pub struct ExMethodRouter<S, E>(axum::routing::MethodRouter<S, E>);

#[verifier::external_type_specification]
#[verifier::external_body]
pub struct ExInitializeResult(rust_mcp_schema::InitializeResult);

#[verifier::external_type_specification]
#[verifier::external_body]
pub struct ExRequestFromServer(rust_mcp_schema::schema_utils::RequestFromServer);

#[verifier::external_type_specification]
#[verifier::external_body]
pub struct ExNotificationFromServer(rust_mcp_schema::schema_utils::NotificationFromServer);

#[verifier::external_type_specification]
#[verifier::external_body]
pub struct ExCustomRequest(rust_mcp_schema::schema_utils::CustomRequest);

#[verifier::external_type_specification]
#[verifier::external_body]
pub struct ExElicitRequestParams(rust_mcp_schema::ElicitRequestParams);

#[verifier::external_type_specification]
#[verifier::external_body]
pub struct ExRequestParams(rust_mcp_schema::RequestParams);

#[verifier::external_type_specification]
#[verifier::external_body]
pub struct ExCreateMessageRequestParams(rust_mcp_schema::CreateMessageRequestParams);

#[verifier::external_type_specification]
#[verifier::external_body]
pub struct ExGetTaskParams(rust_mcp_schema::GetTaskParams);

#[verifier::external_type_specification]
#[verifier::external_body]
pub struct ExGetTaskPayloadParams(rust_mcp_schema::GetTaskPayloadParams);

#[verifier::external_type_specification]
#[verifier::external_body]
pub struct ExCancelTaskParams(rust_mcp_schema::CancelTaskParams);

#[verifier::external_type_specification]
#[verifier::external_body]
pub struct ExLoggingMessageNotificationParams(rust_mcp_schema::LoggingMessageNotificationParams);

#[verifier::external_type_specification]
#[verifier::external_body]
pub struct ExNotificationParams(rust_mcp_schema::NotificationParams);

#[verifier::external_type_specification]
#[verifier::external_body]
pub struct ExResourceUpdatedNotificationParams(rust_mcp_schema::ResourceUpdatedNotificationParams);

#[verifier::external_type_specification]
#[verifier::external_body]
pub struct ExCancelledNotificationParams(rust_mcp_schema::CancelledNotificationParams);

#[verifier::external_type_specification]
#[verifier::external_body]
pub struct ExProgressNotificationParams(rust_mcp_schema::ProgressNotificationParams);

#[verifier::external_type_specification]
#[verifier::external_body]
pub struct ExTaskStatusNotificationParams(rust_mcp_schema::TaskStatusNotificationParams);

#[verifier::external_type_specification]
#[verifier::external_body]
pub struct ExElicitCompleteParams(rust_mcp_schema::ElicitCompleteParams);

/// The span of time that `Duration::from_secs` makes of a whole number of
/// seconds.
pub uninterp spec fn seconds(secs: u64) -> Duration;

/// `std::time::Duration::from_secs`: the same number of seconds always gives
/// the same duration.
pub assume_specification[ Duration::from_secs ](secs: u64) -> (d: Duration)
    ensures
        d == seconds(secs),
;

/// `std::path::Path::is_file`: whether the path names a file that exists now.
/// The answer lies with the file system, so nothing is claimed of it.
#[verifier::external_body]
pub(crate) fn is_file(path: &str) -> (found: bool) {
    std::path::Path::new(path).is_file()
}

/// `axum_server::Handle::new`: a handle that no server uses yet. Nothing is
/// claimed of it.
#[verifier::external_body]
pub(crate) fn new_handle() -> (handle: axum_server::Handle) {
    axum_server::Handle::new()
}

/// `axum_server::Handle::clone`: another handle of the same server. A handle is
/// a shared pointer, and the clone points to what the original points to.
#[verifier::external_body]
pub(crate) fn clone_handle(handle: &axum_server::Handle) -> (r: axum_server::Handle)
    ensures
        r == *handle,
{
    handle.clone()
}

/// `rust_mcp_schema::RpcError::invalid_request` followed by `with_message`: the
/// error has the JSON-RPC code for an invalid request, and the message that it
/// was given.
#[verifier::external_body]
pub(crate) fn rpc_invalid_request(message: String) -> (r: (i64, String))
    ensures
        r.0 == -32600,
        r.1@ == message@,
{
    let error = rust_mcp_schema::RpcError::invalid_request().with_message(message);
    (error.code, error.message)
}

} // verus!
