//! Messages exchanged with the HTTP control plane.

use vstd::prelude::*;

verus! {

/// The control plane's answer to `GET {api_uri}/get_connection/`: the
/// WebSocket URL provisioned for this session and the single-use credential
/// to present on it.  Immutable once received.
#[derive(Debug)]
pub struct ConnectionRequest {
    pub connection_token: String,
    pub provisioned_socket: String,
}

/// The decoded body of `GET {api_uri}/ping`.  `status == 200` is the only
/// healthy status; any other status is an authentication failure.
#[derive(Debug)]
pub struct PingRequest {
    pub status: i32,
    pub message: String,
}

} // verus!
