//! Core of a terminal chat client: a streaming conversational session engine.
//!
//! The library holds the verified heart of the program: the data model of a
//! conversation (roles, turns, stream chunks), the append-only conversation
//! log, the incremental markdown-fence renderer that styles a response while
//! it is still arriving, the session state machine that ties input, request,
//! stream draining and commit together, and the lenient coercion of a
//! loosely-typed backend configuration.  Terminal, file and network I/O live
//! outside, in an unverified shell that hands the library plain values.

pub mod chat_client;
pub mod chat_types;
pub mod config;
pub mod environment_variables;
pub mod error_parser;
pub mod gpt_client;
pub mod profile;
pub mod terminal_capture;
pub mod terminal_renderer;

pub use chat_types::Role;
