use vstd::prelude::*;

use crate::components::Components;
use crate::error::TransportServerError;
use crate::server::HyperServer;
use crate::serving::{
    ActionOutcome, RemainingActions, ServeAction, ServeActionView, ServeStep,
};

verus! {

/// Serving encrypted connections begins with the configured certificate and key, and
/// what remains is: announcing the server at the address, watching signals if that was
/// asked for, and serving its application, encrypted, at that address, through its own
/// handle.
pub proof fn law_start_ssl<C: Components>(
    server: HyperServer<C>,
    addr: &str,
    text: String,
    step: ServeStep<C>,
)
    requires
        call_ensures(HyperServer::<C>::start_ssl, (server, addr), step),
        call_ensures(HyperServer::<C>::server_info_at, (&server, addr), text),
    ensures
        step matches ServeStep::Perform {
            action: ServeAction::LoadTlsConfig { cert_path, key_path },
            remaining,
        } && {
            &&& server.options.ssl_cert_path matches Some(path) ==> cert_path@ == path@
            &&& server.options.ssl_key_path matches Some(path) ==> key_path@ == path@
            &&& server.options.ssl_cert_path is None ==> cert_path@ == ""@
            &&& server.options.ssl_key_path is None ==> key_path@ == ""@
            &&& remaining@[0] == ServeActionView::<C>::Announce(text@)
            &&& remaining@.last() == (ServeActionView::<C>::Serve {
                app: server.app,
                addr: addr@,
                handle: server.handle,
                encrypted: true,
            })
            &&& server.options.enable_signal_handler ==> remaining@.len() == 3 && remaining@[1] == (
            ServeActionView::<C>::WatchSignals { handle: server.handle, state: server.state })
            &&& !server.options.enable_signal_handler ==> remaining@.len() == 2
        },
{
}

/// Serving plain connections begins with announcing the server at the address, and
/// what remains is: watching signals if that was asked for, and serving its application,
/// in the clear, at that address, through its own handle.
pub proof fn law_start_http<C: Components>(
    server: HyperServer<C>,
    addr: &str,
    text: String,
    step: ServeStep<C>,
)
    requires
        call_ensures(HyperServer::<C>::start_http, (server, addr), step),
        call_ensures(HyperServer::<C>::server_info_at, (&server, addr), text),
    ensures
        step matches ServeStep::Perform { action: ServeAction::Announce(announced), remaining } && {
            &&& announced@ == text@
            &&& remaining@.last() == (ServeActionView::<C>::Serve {
                app: server.app,
                addr: addr@,
                handle: server.handle,
                encrypted: false,
            })
            &&& server.options.enable_signal_handler ==> remaining@.len() == 2 && remaining@[0] == (
            ServeActionView::<C>::WatchSignals { handle: server.handle, state: server.state })
            &&& !server.options.enable_signal_handler ==> remaining@.len() == 1
        },
{
}

/// A server serves encrypted connections exactly if its options say so.
pub proof fn law_serve<C: Components>(
    server: HyperServer<C>,
    addr: &str,
    step: ServeStep<C>,
    ssl: ServeStep<C>,
    http: ServeStep<C>,
)
    requires
        call_ensures(HyperServer::<C>::serve, (server, addr), step),
        call_ensures(HyperServer::<C>::start_ssl, (server, addr), ssl),
        call_ensures(HyperServer::<C>::start_http, (server, addr), http),
    ensures
        server.options.enable_ssl ==> step@ == ssl@,
        !server.options.enable_ssl ==> step@ == http@,
{
}

/// After an action that was performed comes the next, and after the last one a good
/// end; after one that failed comes no other, but the error that goes with the failure.
pub proof fn law_after_action<C: Components>(
    remaining: RemainingActions<C>,
    done: ActionOutcome,
    step: ServeStep<C>,
)
    requires
        call_ensures(RemainingActions::<C>::after_action, (remaining, done), step),
    ensures
        match done {
            ActionOutcome::Done => match step {
                ServeStep::Perform { action, remaining: rest } => remaining@ == seq![action@]
                    + rest@,
                ServeStep::Ended(result) => result is Ok && remaining@.len() == 0,
            },
            ActionOutcome::TlsConfigFailed(message) => step == ServeStep::<C>::Ended(
                Err(TransportServerError::SslCertError(message)),
            ),
            ActionOutcome::ServeFailed(message) => step == ServeStep::<C>::Ended(
                Err(TransportServerError::ServerStartError(message)),
            ),
        },
{
}

} // verus!
