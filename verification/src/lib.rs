//! Control-client library for a networked audio-distribution server.
//!
//! The server's runtime state (streams, groups, clients) is read and mutated
//! through JSON-RPC requests sent over a WebSocket control channel.  This
//! crate holds everything that can be stated and proved: the document model
//! and its lookups, the request envelopes, the error taxonomy, the table
//! rendering, and the multi-step orchestration of the mutating commands as
//! explicit state machines.  The unverifiable rim (socket I/O, argument
//! parsing, conversion to and from the wire encoding) lives outside, in the
//! accompanying application crate.

pub mod json;
pub mod strutil;
pub mod numfmt;
pub mod lookup;
pub mod error;
pub mod classify;
pub mod rpc;
pub mod table;
pub mod rows;
pub mod flow_set_client;
pub mod flow_set_group;
pub mod flow_delete;
pub mod laws;
pub mod cli;
