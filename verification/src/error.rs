use vstd::prelude::*;

use crate::components::Components;

verus! {

/// What can go wrong between the server's configuration and its sessions.
#[derive(Debug)]
pub enum TransportServerError {
    /// The server options contradict each other or name files that do not exist.
    InvalidServerOptions(String),
    /// The address could not be resolved, or the server could not be bound to it.
    ServerStartError(String),
    /// The certificate or the private key could not be loaded.
    SslCertError(String),
    /// No live session has this id.
    SessionIdInvalid(String),
}

/// A `TransportServerError` with its text as a sequence of characters.
pub ghost enum ErrorView {
    InvalidServerOptions(Seq<char>),
    ServerStartError(Seq<char>),
    SslCertError(Seq<char>),
    SessionIdInvalid(Seq<char>),
}

impl View for TransportServerError {
    type V = ErrorView;

    open spec fn view(&self) -> ErrorView {
        match self {
            TransportServerError::InvalidServerOptions(text) => {
                ErrorView::InvalidServerOptions(text@)
            },
            TransportServerError::ServerStartError(text) => ErrorView::ServerStartError(text@),
            TransportServerError::SslCertError(text) => ErrorView::SslCertError(text@),
            TransportServerError::SessionIdInvalid(text) => ErrorView::SessionIdInvalid(text@),
        }
    }
}

pub type TransportServerResult<T> = Result<T, TransportServerError>;

/// A result whose error is seen through its view.
pub open spec fn outcome<T>(result: TransportServerResult<T>) -> Result<T, ErrorView> {
    match result {
        Ok(value) => Ok(value),
        Err(error) => Err(error@),
    }
}

/// Why a server could not be started, or why it stopped.
pub enum SdkError<C: Components> {
    /// The server itself failed.
    Transport(TransportServerError),
    /// The client task store refused to start polling.
    TaskPolling(C::PollingError),
    /// The background task ended without a result.
    ServerTask(C::JoinError),
}

} // verus!
