use vstd::prelude::*;

verus! {

/// The parts of a running server that this crate hands around without looking
/// inside: the stores, handlers and providers that an application plugs in.
pub trait Components {
    /// Generates the ids of new sessions.
    type SessionIdGenerator: ?Sized;

    /// Settings shared by the transports of all sessions.
    type TransportOptions: Default;

    /// Keeps events so that a client can resume a stream.
    type EventStore: ?Sized;

    /// Tracks the tasks that this server executes for its clients.
    type ServerTaskStore: ?Sized;

    /// Tracks the tasks that clients execute for this server.
    type ClientTaskStore: ?Sized;

    /// Decides who may talk to the server.
    type AuthProvider: ?Sized;

    /// Answers requests to the health endpoint.
    type HealthHandler: ?Sized;

    /// Sees every incoming and outgoing message.
    type MessageObserver: ?Sized;

    /// Handles the requests and notifications of the clients.
    type ServerHandler: ?Sized;

    /// Maps the ids of live sessions to their runtimes. A store that is made
    /// afresh holds no session.
    type SessionStore: Default;

    /// Talks to the client of one session.
    type SessionRuntime: ?Sized;

    /// The background task that serves connections.
    type ServerTask;

    /// Why the background task ended without a result.
    type JoinError;

    /// Why polling of client tasks could not be started.
    type PollingError;
}

} // verus!
