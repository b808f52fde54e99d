//! A verified core for the Model Context Protocol (MCP).
//!
//! The crate holds what decides how MCP messages are framed, routed and
//! answered, with its behaviour stated as contracts and proved:
//!
//! - `model`, `schema`: the JSON-RPC envelope, request ids, error objects,
//!   and the requests, notifications and results of MCP.
//! - `codec`, `bytes_buf`: newline-delimited framing of messages.
//! - `service`: one side of a connection, its waiting requests and the loop
//!   that routes each event; the opening handshake of client and server.
//! - `handler`, `registry`, `transport`: tools, the tool registry, the
//!   capabilities of a server, and which handler method gets each message.
//! - `session`, `event_id`: the server side of a streamable HTTP session,
//!   its streams, event numbering and resumption.
//! - `streamable_http`, `streamable_http_server`, `http_header`,
//!   `sse_client`: the decisions of the HTTP transports.
//! - `tool_attr`: what the `tool` attribute resolves for a function.
//! - `decimal`, `text`: decimal text and small string utilities.

pub mod bytes_buf;
pub mod codec;
pub mod decimal;
pub mod event_id;
pub mod handler;
pub mod http_header;
pub mod model;
pub mod registry;
pub mod schema;
pub mod service;
pub mod session;
pub mod sse_client;
pub mod streamable_http;
pub mod streamable_http_server;
pub mod text;
pub mod tool_attr;
pub mod transport;
