//! A sandboxed pseudo-shell session library.
//!
//! A client sends command lines as discrete text messages; a per-connection
//! [`session::Session`] keeps a current working directory that never leaves a
//! fixed sandbox root, parses each line, dispatches it over a fixed builtin
//! verb table, and frames the reply as a [`session::WebSocketResponse`].
//! Work that leaves the process — canonicalising a path, spawning the
//! allow-listed inspection programs, the transport itself — is done by the
//! caller, which hands the results back as plain values.

pub mod command;
pub mod dispatch;
pub mod lex;
pub mod messages;
pub mod paths;
pub mod sanitize;
pub mod session;
pub mod text;
