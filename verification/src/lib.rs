//! A verified JSON-RPC bridge for a kanban-board tool server.
//!
//! The crate models JSON documents, decodes request envelopes, plans the
//! HTTP calls that fulfil each tool, interprets the replies, and renders
//! response lines.  All input/output (stdin, stdout, the HTTP transport)
//! lives outside the library; the library receives plain values and
//! returns plain values.

pub mod bridge;
pub mod gateway;
pub mod json;
pub mod mcp;
pub mod records;
pub mod render;
pub mod responses;
pub mod rpc;
pub mod token;
pub mod tools;
