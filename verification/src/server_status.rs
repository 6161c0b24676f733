//! Status reporting for the embedded HTTP/WebSocket transport.
//!
//! The transport itself — sockets, routing, shutdown channels — lives
//! with the embedding program; it hands this module the plain
//! coordinates of the running server, if any.

use vstd::prelude::*;

verus! {

/// The plain coordinates of a running server: everything a client
/// needs to reach it.
pub struct ServerHandleInfo {
    pub port: u16,
    pub token: String,
    pub url: String,
    pub localhost_only: bool,
}

/// Status of the server as reported to clients: either running with
/// all coordinates present, or not running with none.
pub struct ServerStatus {
    pub running: bool,
    pub url: Option<String>,
    pub token: Option<String>,
    pub port: Option<u16>,
    pub localhost_only: Option<bool>,
}

/// Build the status report for the current server handle, if any.
pub fn get_server_status(handle: &Option<ServerHandleInfo>) -> (r: ServerStatus)
    ensures
        r.running == handle is Some,
        handle matches Option::Some(h) ==> {
            &&& r.url matches Option::Some(u) && u@ == h.url@
            &&& r.token matches Option::Some(t) && t@ == h.token@
            &&& r.port == Option::Some(h.port)
            &&& r.localhost_only == Option::Some(h.localhost_only)
        },
        handle is None ==> r.url is None && r.token is None && r.port is None
            && r.localhost_only is None,
{
    match handle {
        Option::Some(h) => ServerStatus {
            running: true,
            url: Option::Some(h.url.clone()),
            token: Option::Some(h.token.clone()),
            port: Option::Some(h.port),
            localhost_only: Option::Some(h.localhost_only),
        },
        Option::None => ServerStatus {
            running: false,
            url: Option::None,
            token: Option::None,
            port: Option::None,
            localhost_only: Option::None,
        },
    }
}

} // verus!
