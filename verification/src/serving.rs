use std::sync::Arc;

use axum_server::Handle;
use vstd::prelude::*;

use crate::components::Components;
use crate::error::{outcome, ErrorView, TransportServerError, TransportServerResult};
use crate::server::{App, HyperServer, McpAppState};
use crate::text::{or_default, text_or};

verus! {

/// One of the things that serving consists of.
pub enum ServeAction<C: Components> {
    /// Load the certificate and the private key.
    LoadTlsConfig { cert_path: String, key_path: String },
    /// Tell the log where the server can be reached.
    Announce(String),
    /// Wait, in the background, for a signal to shut down, and hand it to
    /// `shutdown_signal` with this handle and this state.
    WatchSignals { handle: Handle, state: Arc<McpAppState<C>> },
    /// Bind to the address and serve the application until the server is stopped
    /// through the handle: over TLS, with the certificate that was loaded, if
    /// `encrypted`, and in the clear otherwise.
    Serve { app: App<C>, addr: String, handle: Handle, encrypted: bool },
}

/// A `ServeAction` with its texts as sequences of characters.
pub ghost enum ServeActionView<C: Components> {
    LoadTlsConfig { cert_path: Seq<char>, key_path: Seq<char> },
    Announce(Seq<char>),
    WatchSignals { handle: Handle, state: Arc<McpAppState<C>> },
    Serve { app: App<C>, addr: Seq<char>, handle: Handle, encrypted: bool },
}

impl<C: Components> View for ServeAction<C> {
    type V = ServeActionView<C>;

    open spec fn view(&self) -> ServeActionView<C> {
        match self {
            ServeAction::LoadTlsConfig { cert_path, key_path } => ServeActionView::LoadTlsConfig {
                cert_path: cert_path@,
                key_path: key_path@,
            },
            ServeAction::Announce(text) => ServeActionView::Announce(text@),
            ServeAction::WatchSignals { handle, state } => ServeActionView::WatchSignals {
                handle: *handle,
                state: *state,
            },
            ServeAction::Serve { app, addr, handle, encrypted } => ServeActionView::Serve {
                app: *app,
                addr: addr@,
                handle: *handle,
                encrypted: *encrypted,
            },
        }
    }
}

/// The actions, first to last, with their texts as sequences of characters.
pub open spec fn actions<C: Components>(list: Seq<ServeAction<C>>) -> Seq<ServeActionView<C>> {
    list.map_values(|action: ServeAction<C>| action@)
}

/// What came of an action.
pub enum ActionOutcome {
    /// It was performed; where it was to serve, the server has been stopped.
    Done,
    /// The certificate or the private key could not be loaded, for this reason.
    TlsConfigFailed(String),
    /// The server could not be bound, or broke down, for this reason.
    ServeFailed(String),
}

/// What came of an action, as a result.
pub open spec fn action_result(done: ActionOutcome) -> Result<(), ErrorView> {
    match done {
        ActionOutcome::Done => Ok(()),
        ActionOutcome::TlsConfigFailed(message) => Err(ErrorView::SslCertError(message@)),
        ActionOutcome::ServeFailed(message) => Err(ErrorView::ServerStartError(message@)),
    }
}

/// The actions that are still to come. They are handed out one by one, each once it
/// is known what came of the one before it.
pub struct RemainingActions<C: Components> {
    list: Vec<ServeAction<C>>,
}

impl<C: Components> View for RemainingActions<C> {
    type V = Seq<ServeActionView<C>>;

    closed spec fn view(&self) -> Seq<ServeActionView<C>> {
        actions(self.list@)
    }
}

/// What is to be done next to serve.
pub enum ServeStep<C: Components> {
    /// Perform the action, and hand what came of it to
    /// `RemainingActions::after_action`.
    Perform { action: ServeAction<C>, remaining: RemainingActions<C> },
    /// Serving has ended, with this result.
    Ended(TransportServerResult<()>),
}

/// A `ServeStep` with its texts as sequences of characters.
pub ghost enum ServeStepView<C: Components> {
    Perform { action: ServeActionView<C>, remaining: Seq<ServeActionView<C>> },
    Ended(Result<(), ErrorView>),
}

impl<C: Components> View for ServeStep<C> {
    type V = ServeStepView<C>;

    open spec fn view(&self) -> ServeStepView<C> {
        match self {
            ServeStep::Perform { action, remaining } => ServeStepView::Perform {
                action: action@,
                remaining: remaining@,
            },
            ServeStep::Ended(result) => ServeStepView::Ended(outcome(*result)),
        }
    }
}

/// The step that is next where these actions are to come: the first of them, and
/// where there is none, serving has ended well.
pub open spec fn next_step<C: Components>(list: Seq<ServeActionView<C>>) -> ServeStepView<C> {
    if list.len() > 0 {
        ServeStepView::Perform { action: list[0], remaining: list.drop_first() }
    } else {
        ServeStepView::Ended(Ok(()))
    }
}

/// The step that follows an action: where it failed, serving ends with the reason,
/// and none of the remaining actions is performed.
pub open spec fn step_after_action<C: Components>(
    remaining: Seq<ServeActionView<C>>,
    done: ActionOutcome,
) -> ServeStepView<C> {
    match action_result(done) {
        Ok(_) => next_step(remaining),
        Err(error) => ServeStepView::Ended(Err(error)),
    }
}

impl<C: Components> RemainingActions<C> {
    /// Goes on with the first of the remaining actions, if there is one.
    fn next(self) -> (step: ServeStep<C>)
        ensures
            step@ == next_step(self@),
            match step {
                ServeStep::Perform { action, remaining } => self@ == seq![action@] + remaining@,
                ServeStep::Ended(result) => result is Ok && self@.len() == 0,
            },
    {
        let mut list = self.list;
        if list.len() == 0 {
            return ServeStep::Ended(Ok(()));
        }
        let action = list.remove(0);
        assert(actions(list@) =~= self@.drop_first());
        assert(self@ =~= seq![self@[0]] + self@.drop_first());
        ServeStep::Perform { action, remaining: RemainingActions { list } }
    }

    /// Goes on once it is known what came of an action.
    pub fn after_action(self, done: ActionOutcome) -> (step: ServeStep<C>)
        ensures
            step@ == step_after_action(self@, done),
            match done {
                ActionOutcome::Done => match step {
                    ServeStep::Perform { action, remaining } => self@ == seq![action@]
                        + remaining@,
                    ServeStep::Ended(result) => result is Ok && self@.len() == 0,
                },
                ActionOutcome::TlsConfigFailed(message) => step == ServeStep::<C>::Ended(
                    Err(TransportServerError::SslCertError(message)),
                ),
                ActionOutcome::ServeFailed(message) => step == ServeStep::<C>::Ended(
                    Err(TransportServerError::ServerStartError(message)),
                ),
            },
    {
        match done {
            ActionOutcome::Done => self.next(),
            ActionOutcome::TlsConfigFailed(message) => ServeStep::Ended(
                Err(TransportServerError::SslCertError(message)),
            ),
            ActionOutcome::ServeFailed(message) => ServeStep::Ended(
                Err(TransportServerError::ServerStartError(message)),
            ),
        }
    }
}

impl<C: Components> HyperServer<C> {
    /// What follows once the certificate is loaded, where one is needed: the
    /// server is announced, signals are watched if the options say so, and the
    /// application is served at `addr`. Signals and serving go by the handle of
    /// this server.
    pub open spec fn announcing_and_serving(&self, encrypted: bool, addr: Seq<char>) -> Seq<
        ServeActionView<C>,
    > {
        let signals = if self.options.enable_signal_handler {
            seq![ServeActionView::WatchSignals { handle: self.handle, state: self.state }]
        } else {
            seq![]
        };
        seq![ServeActionView::Announce(self.info(addr))] + signals + seq![
            ServeActionView::Serve { app: self.app, addr, handle: self.handle, encrypted },
        ]
    }

    /// How the certificate and the private key are loaded.
    pub open spec fn loading(&self) -> ServeActionView<C> {
        ServeActionView::LoadTlsConfig {
            cert_path: text_or(self.options.ssl_cert_path, ""@),
            key_path: text_or(self.options.ssl_key_path, ""@),
        }
    }

    /// What serving consists of, first to last, once the server is to be bound to
    /// `addr`: the certificate comes first, where connections are encrypted.
    pub open spec fn serving(&self, encrypted: bool, addr: Seq<char>) -> Seq<ServeActionView<C>> {
        let tls = if encrypted {
            seq![self.loading()]
        } else {
            seq![]
        };
        tls + self.announcing_and_serving(encrypted, addr)
    }

    fn announce_and_serve(self, list: Vec<ServeAction<C>>, addr: &str, encrypted: bool) -> (step:
        ServeStep<C>)
        ensures
            step@ == next_step(
                actions(list@) + self.announcing_and_serving(encrypted, addr@),
            ),
    {
        let mut steps = list;
        steps.push(ServeAction::Announce(self.server_info_at(addr)));
        if self.options.enable_signal_handler {
            steps.push(
                ServeAction::WatchSignals { handle: self.server_handle(), state: self.state() },
            );
        }
        steps.push(
            ServeAction::Serve {
                app: self.app,
                addr: addr.to_string(),
                handle: self.handle,
                encrypted,
            },
        );
        assert(actions(steps@) =~= actions(list@) + self.announcing_and_serving(encrypted, addr@));
        RemainingActions { list: steps }.next()
    }

    /// Begins to serve encrypted connections at `addr`.
    pub fn start_ssl(self, addr: &str) -> (step: ServeStep<C>)
        requires
            self.features.ssl,
        ensures
            step@ == next_step(self.serving(true, addr@)),
            step matches ServeStep::Perform { action: ServeAction::LoadTlsConfig {
                cert_path,
                key_path,
            }, .. } && {
                &&& match self.options.ssl_cert_path {
                    Some(path) => cert_path@ == path@,
                    None => cert_path@ == ""@,
                }
                &&& match self.options.ssl_key_path {
                    Some(path) => key_path@ == path@,
                    None => key_path@ == ""@,
                }
            },
    {
        let mut steps: Vec<ServeAction<C>> = Vec::new();
        steps.push(
            ServeAction::LoadTlsConfig {
                cert_path: or_default(&self.options.ssl_cert_path, "").to_string(),
                key_path: or_default(&self.options.ssl_key_path, "").to_string(),
            },
        );
        assert(actions(steps@) =~= seq![self.loading()]);
        self.announce_and_serve(steps, addr, true)
    }

    /// Begins to serve plain connections at `addr`.
    pub fn start_http(self, addr: &str) -> (step: ServeStep<C>)
        ensures
            step@ == next_step(self.serving(false, addr@)),
            step matches ServeStep::Perform { action: ServeAction::Announce(text), .. } && text@
                == self.info(addr@),
    {
        let steps: Vec<ServeAction<C>> = Vec::new();
        assert(actions(steps@) =~= seq![]);
        self.announce_and_serve(steps, addr, false)
    }

    /// Begins to serve at `addr`, with SSL or without it as the options say.
    pub fn serve(self, addr: &str) -> (step: ServeStep<C>)
        requires
            self.servable(),
        ensures
            step@ == next_step(self.serving(self.options.enable_ssl, addr@)),
    {
        if self.options.enable_ssl {
            self.start_ssl(addr)
        } else {
            self.start_http(addr)
        }
    }
}

} // verus!
