# mcp_hyper_server

The decisions of an HTTP server for the Model Context Protocol, verified with Verus.

- `src/options.rs`: what a server is configured with, its URLs, and which options are valid.
- `src/files.rs`: asking the file system whether a path names a file.
- `src/address.rs`: the search for the address that a server binds to, step by step.
- `src/server.rs`: how a server is put together, what it says of itself, and what shutting
  down consists of.
- `src/serving.rs`: what serving consists of, step by step, and where it ends if a step fails.
- `src/runtime.rs`: how a server is brought up, step by step, and whether it has started.
- `src/calls.rs`: messages to the sessions of a running server, and what becomes of them.
- `src/polling.rs`: asking clients how the tasks of the server are doing.
- `src/error.rs`: what can go wrong.
- `src/text.rs`: numbers in decimal notation, prefixes, and texts with a default.
- `src/laws.rs`: what holds across these modules.
- `src/components.rs`: the parts that an application plugs in.
- `src/outside.rs`: what is taken on trust from other crates and from the standard library.

The library performs no network work. It says what is to be done next, and takes the outcome
back. `app/` performs the steps, with `axum`, `axum_server` and `tokio`.
