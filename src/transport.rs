use vstd::prelude::*;
use crate::text::{has_prefix, is_prefix};

verus! {

/// The two ways an operation can be carried to a server.
#[derive(Debug, Clone, Copy, PartialEq, Eq, Structural)]
pub enum Transport {
    Http,
    WebSocket,
}

/// The endpoint names a scheme that is neither HTTP(S) nor WS(S).
#[derive(Debug, Clone, Copy, PartialEq, Eq, Structural)]
pub struct InvalidServerEndpointScheme;

impl InvalidServerEndpointScheme {
    pub fn message(&self) -> (r: String)
        ensures
            r@ == "InvalidServerEndpointScheme"@,
    {
        String::from_str("InvalidServerEndpointScheme")
    }
}

pub open spec fn is_http_endpoint(e: Seq<char>) -> bool {
    is_prefix("http://"@, e) || is_prefix("https://"@, e)
}

pub open spec fn is_ws_endpoint(e: Seq<char>) -> bool {
    is_prefix("ws://"@, e) || is_prefix("wss://"@, e)
}

/// The transport an endpoint is routed to, decided by its scheme alone.
pub open spec fn transport_of(e: Seq<char>) -> Option<Transport> {
    if is_http_endpoint(e) {
        Some(Transport::Http)
    } else if is_ws_endpoint(e) {
        Some(Transport::WebSocket)
    } else {
        None
    }
}

/// Picks the transport for an endpoint: `http://` and `https://` go over HTTP,
/// `ws://` and `wss://` over a WebSocket, and any other scheme is refused.
pub fn select_transport(server_endpoint: &str) -> (r: Result<Transport, InvalidServerEndpointScheme>)
    ensures
        is_http_endpoint(server_endpoint@) ==> r == Ok::<Transport, InvalidServerEndpointScheme>(
            Transport::Http,
        ),
        !is_http_endpoint(server_endpoint@) && is_ws_endpoint(server_endpoint@) ==> r == Ok::<
            Transport,
            InvalidServerEndpointScheme,
        >(Transport::WebSocket),
        !is_http_endpoint(server_endpoint@) && !is_ws_endpoint(server_endpoint@) ==> r == Err::<
            Transport,
            InvalidServerEndpointScheme,
        >(InvalidServerEndpointScheme),
        r is Ok <==> transport_of(server_endpoint@) is Some,
        r is Ok ==> transport_of(server_endpoint@) == Some(r->Ok_0),
{
    if has_prefix(server_endpoint, "http://") || has_prefix(server_endpoint, "https://") {
        Ok(Transport::Http)
    } else if has_prefix(server_endpoint, "ws://") || has_prefix(server_endpoint, "wss://") {
        Ok(Transport::WebSocket)
    } else {
        Err(InvalidServerEndpointScheme)
    }
}

} // verus!
