//! Executes a GraphQL operation over HTTP or over a `graphql-transport-ws`
//! WebSocket subscription, with an optional fixed-interval reconnect policy.
//! The library holds the decisions and the wire formats; the caller performs
//! the network I/O and feeds the results back in.

pub mod args;
pub mod json;
pub mod reconnect;
pub mod response;
pub mod text;
pub mod transport;
pub mod variables;
pub mod wire;
pub mod ws;
