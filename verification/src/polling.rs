use std::sync::Arc;

use vstd::prelude::*;

use crate::calls::{SessionId, SessionLookup};
use crate::components::Components;
use crate::outside::rpc_invalid_request;

verus! {

/// A JSON-RPC error, without data.
#[derive(Debug)]
pub struct RpcFailure {
    pub code: i64,
    pub message: String,
}

impl RpcFailure {
    /// Whether this refuses a request as invalid, with the given message.
    pub open spec fn is_invalid_request(&self, message: Seq<char>) -> bool {
        self.code == -32600 && self.message@ == message
    }
}

fn invalid_request(message: &str) -> (r: RpcFailure)
    ensures
        r.is_invalid_request(message@),
        r.code == -32600,
        r.message@ == message@,
{
    let (code, message) = rpc_invalid_request(message.to_string());
    RpcFailure { code, message }
}

/// Asks the clients how the tasks are doing that they execute for this server.
pub struct TaskPoller<C: Components> {
    pub client_task_store: Arc<C::ClientTaskStore>,
    pub session_store: Arc<C::SessionStore>,
}

/// What is to be done next to ask for the status of a task.
pub enum PollStep<C: Components> {
    /// Look up the session, and hand the outcome to `PendingPoll::deliver`.
    LookUp(PendingPoll<C>),
    /// The status cannot be asked for, for this reason.
    Refused(RpcFailure),
}

/// A task whose session is to be looked up before its status can be asked for.
pub struct PendingPoll<C: Components> {
    pub lookup: SessionLookup<C>,
    pub task_id: String,
    pub client_task_store: Arc<C::ClientTaskStore>,
}

/// A question for the status of a task, to be put by the runtime of a session.
/// The answer goes into the task store.
pub struct PollCall<C: Components> {
    pub runtime: Arc<C::SessionRuntime>,
    pub task_id: String,
    pub session_id: Option<SessionId>,
    pub client_task_store: Arc<C::ClientTaskStore>,
}

impl<C: Components> TaskPoller<C> {
    /// Whether `step` is how asking for the status of a task begins: with a lookup
    /// of the session that the task belongs to, or with a refusal where it belongs
    /// to none.
    pub open spec fn begins(
        &self,
        task_id: String,
        session_id: Option<SessionId>,
        step: PollStep<C>,
    ) -> bool {
        match session_id {
            Some(id) => step == PollStep::LookUp(
                PendingPoll::<C> {
                    lookup: SessionLookup { session_store: self.session_store, session_id: id },
                    task_id,
                    client_task_store: self.client_task_store,
                },
            ),
            None => step matches PollStep::Refused(failure) && failure.is_invalid_request(
                "No session id provided!"@,
            ),
        }
    }

    /// Begins to ask for the status of a task. A task that belongs to no session
    /// cannot be asked for.
    pub fn poll(&self, task_id: String, session_id: Option<SessionId>) -> (step: PollStep<C>)
        ensures
            self.begins(task_id, session_id, step),
            match step {
                PollStep::LookUp(pending) => {
                    &&& Some(pending.lookup.session_id) == session_id
                    &&& pending.lookup.session_store == self.session_store
                    &&& pending.task_id == task_id
                    &&& pending.client_task_store == self.client_task_store
                },
                PollStep::Refused(failure) => {
                    &&& session_id is None
                    &&& failure.code == -32600
                    &&& failure.message@ == "No session id provided!"@
                },
            },
    {
        match session_id {
            Some(session_id) => PollStep::LookUp(
                PendingPoll {
                    lookup: SessionLookup {
                        session_store: Arc::clone(&self.session_store),
                        session_id,
                    },
                    task_id,
                    client_task_store: Arc::clone(&self.client_task_store),
                },
            ),
            None => PollStep::Refused(invalid_request("No session id provided!")),
        }
    }
}

impl<C: Components> PendingPoll<C> {
    /// Whether `r` is how asking for the status goes on: with a question that the
    /// runtime puts, or with a refusal where there is none.
    pub open spec fn ends(
        &self,
        found: Option<Arc<C::SessionRuntime>>,
        r: Result<PollCall<C>, RpcFailure>,
    ) -> bool {
        match found {
            Some(runtime) => r == Ok::<PollCall<C>, RpcFailure>(
                PollCall {
                    runtime,
                    task_id: self.task_id,
                    session_id: Some(self.lookup.session_id),
                    client_task_store: self.client_task_store,
                },
            ),
            None => r matches Err(failure) && failure.is_invalid_request(
                "Invalid or broken session!"@,
            ),
        }
    }

    /// Goes on once the store has said whether it knows the session: its runtime
    /// asks for the status, and without one nobody does.
    pub fn deliver(self, found: Option<Arc<C::SessionRuntime>>) -> (r: Result<
        PollCall<C>,
        RpcFailure,
    >)
        ensures
            self.ends(found, r),
            match r {
                Ok(call) => {
                    &&& found == Some(call.runtime)
                    &&& call.task_id == self.task_id
                    &&& call.session_id == Some(self.lookup.session_id)
                    &&& call.client_task_store == self.client_task_store
                },
                Err(failure) => {
                    &&& found is None
                    &&& failure.code == -32600
                    &&& failure.message@ == "Invalid or broken session!"@
                },
            },
    {
        match found {
            Some(runtime) => Ok(
                PollCall {
                    runtime,
                    task_id: self.task_id,
                    session_id: Some(self.lookup.session_id),
                    client_task_store: self.client_task_store,
                },
            ),
            None => Err(invalid_request("Invalid or broken session!")),
        }
    }
}

} // verus!
