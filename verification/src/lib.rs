//! A verified core for a command-line chat client.
//!
//! The library holds the logic of the client: resolving the platform
//! shell, building the instruction message, keeping the conversation
//! history with commit-on-success semantics, encoding the request body,
//! extracting the answer from the provider's response, and deciding
//! what to do with a tagged answer. I/O (the HTTP call, the terminal)
//! stays outside the library.

pub mod encode;
pub mod message;
pub mod output;
pub mod prompt;
pub mod response;
pub mod session;
pub mod shell;
pub mod text;
