use std::sync::Arc;

use rust_mcp_schema::TaskStatusNotificationParams;
use vstd::prelude::*;

use crate::calls::{
    delivery, delivery_or_drop, lookup_result, RuntimeCall, SessionCall, SessionId, SessionLookup,
};
use crate::components::Components;
use crate::error::ErrorView;
use crate::polling::{PendingPoll, PollCall, PollStep, RpcFailure, TaskPoller};
use crate::runtime::HyperRuntime;
use crate::server::McpAppState;

verus! {

/// A message is addressed to exactly the session whose id was given, in the store of
/// this server, and is exactly the call that was asked for.
pub proof fn law_messages_are_addressed_as_asked<C: Components>(
    runtime: HyperRuntime<C>,
    sent: SessionCall<C>,
    session_id: Seq<char>,
    call: RuntimeCall,
)
    ensures
        runtime.addresses(sent, session_id, call) <==> {
            &&& sent.lookup.session_id@ == session_id
            &&& sent.lookup.session_store == runtime.state.session_store
            &&& sent.call == call
        },
{
}

/// A session is looked for by exactly the id that was given, in the store of this
/// server.
pub proof fn law_sessions_are_looked_up_by_their_ids<C: Components>(
    runtime: HyperRuntime<C>,
    lookup: SessionLookup<C>,
    session_id: Seq<char>,
)
    ensures
        runtime.looks_up(lookup, session_id) <==> {
            &&& lookup.session_id@ == session_id
            &&& lookup.session_store == runtime.state.session_store
        },
{
}

/// A session that is live gets every message that is addressed to it, unchanged, and
/// at its own runtime; a message to a session that is not live is refused by its id.
/// Here `live` tells which sessions a store holds.
pub proof fn law_live_sessions_get_their_messages<C: Components>(
    runtime: HyperRuntime<C>,
    live: spec_fn(Arc<C::SessionStore>) -> Map<Seq<char>, Arc<C::SessionRuntime>>,
    sent: SessionCall<C>,
    session_id: Seq<char>,
    call: RuntimeCall,
    found: Option<Arc<C::SessionRuntime>>,
)
    requires
        runtime.addresses(sent, session_id, call),
        match found {
            Some(session) => live(sent.lookup.session_store).contains_pair(
                sent.lookup.session_id@,
                session,
            ),
            None => !live(sent.lookup.session_store).contains_key(sent.lookup.session_id@),
        },
    ensures
        live(runtime.state.session_store).contains_key(session_id) ==> delivery(
            sent.lookup.session_id@,
            sent.call,
            found,
        ) == Ok::<(Arc<C::SessionRuntime>, RuntimeCall), ErrorView>(
            (live(runtime.state.session_store)[session_id], call),
        ),
        !live(runtime.state.session_store).contains_key(session_id) ==> delivery(
            sent.lookup.session_id@,
            sent.call,
            found,
        ) == Err::<(Arc<C::SessionRuntime>, RuntimeCall), ErrorView>(
            ErrorView::SessionIdInvalid(session_id),
        ),
{
}

/// Messages to different sessions are looked up under different ids, so none goes to
/// the session of another.
pub proof fn law_sessions_are_not_mixed_up<C: Components>(
    runtime: HyperRuntime<C>,
    one: SessionCall<C>,
    other: SessionCall<C>,
    one_id: Seq<char>,
    other_id: Seq<char>,
    call: RuntimeCall,
)
    requires
        runtime.addresses(one, one_id, call),
        runtime.addresses(other, other_id, call),
    ensures
        one_id != other_id <==> one.lookup.session_id@ != other.lookup.session_id@,
{
}

/// What a lookup finds is handed on, and where it finds nothing the id is named.
pub proof fn law_lookups_are_settled_by_what_is_found<R>(
    session_id: Seq<char>,
    call: RuntimeCall,
    found: Option<R>,
)
    ensures
        found matches Some(runtime) ==> {
            &&& lookup_result(session_id, found) == Ok::<R, ErrorView>(runtime)
            &&& delivery(session_id, call, found) == Ok::<(R, RuntimeCall), ErrorView>(
                (runtime, call),
            )
            &&& delivery_or_drop(call, found) == Some((runtime, call))
        },
        found is None ==> {
            &&& lookup_result(session_id, found) == Err::<R, ErrorView>(
                ErrorView::SessionIdInvalid(session_id),
            )
            &&& delivery(session_id, call, found) == Err::<(R, RuntimeCall), ErrorView>(
                ErrorView::SessionIdInvalid(session_id),
            )
            &&& delivery_or_drop(call, found) is None
        },
{
}

/// The status of a task is told to exactly the session that the task belongs to, in
/// the store of this server, as it was reported; and to nobody, if it belongs to none.
pub proof fn law_status_changes_are_told_as_reported<C: Components>(
    state: McpAppState<C>,
    params: TaskStatusNotificationParams,
    session_id: Option<SessionId>,
)
    ensures
        state.status_notification(params, session_id) is Some <==> session_id is Some,
        state.status_notification(params, session_id) matches Some(sent) ==> {
            &&& Some(sent.lookup.session_id) == session_id
            &&& sent.lookup.session_store == state.session_store
            &&& sent.call == RuntimeCall::NotifyTaskStatus(params)
        },
{
}

/// To poll a task, exactly the session that the task belongs to is looked up, in the
/// store of the poller; a task that belongs to none is refused as invalid.
pub proof fn law_polling_looks_up_the_session_of_the_task<C: Components>(
    poller: TaskPoller<C>,
    task_id: String,
    session_id: Option<SessionId>,
    step: PollStep<C>,
)
    requires
        poller.begins(task_id, session_id, step),
    ensures
        match step {
            PollStep::LookUp(pending) => {
                &&& session_id == Some(pending.lookup.session_id)
                &&& pending.lookup.session_store == poller.session_store
                &&& pending.task_id == task_id
                &&& pending.client_task_store == poller.client_task_store
            },
            PollStep::Refused(failure) => {
                &&& session_id is None
                &&& failure.code == -32600
                &&& failure.message@ == "No session id provided!"@
            },
        },
{
}

/// The runtime that was found asks for exactly the task that was pending, in its
/// session, and the answer goes into the pending store; without a runtime the request
/// is refused as invalid.
pub proof fn law_pending_polls_are_put_unchanged<C: Components>(
    pending: PendingPoll<C>,
    found: Option<Arc<C::SessionRuntime>>,
    r: Result<PollCall<C>, RpcFailure>,
)
    requires
        pending.ends(found, r),
    ensures
        match r {
            Ok(call) => {
                &&& found == Some(call.runtime)
                &&& call.task_id == pending.task_id
                &&& call.session_id == Some(pending.lookup.session_id)
                &&& call.client_task_store == pending.client_task_store
            },
            Err(failure) => {
                &&& found is None
                &&& failure.code == -32600
                &&& failure.message@ == "Invalid or broken session!"@
            },
        },
{
}

} // verus!
