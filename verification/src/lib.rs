//! The decision core of an HTTP server for the Model Context Protocol.
//!
//! The crate says what such a server is configured with, which address it
//! binds to, what it serves and announces, and to which session each message
//! of the server goes. It performs none of the network work itself: whoever
//! embeds it asks for the next step, performs it, and hands the outcome back.

pub mod address;
pub mod calls;
pub mod components;
pub mod error;
pub mod files;
pub mod laws;
pub mod options;
pub mod outside;
pub mod polling;
pub mod runtime;
pub mod server;
pub mod serving;
pub mod text;

