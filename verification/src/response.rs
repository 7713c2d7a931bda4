//! The responses that the proxy writes itself.

use vstd::prelude::*;

verus! {

/// The status of a request that the proxy could not make sense of.
pub const BAD_REQUEST: u16 = 400;

/// The status of a request that went well.
pub const OK: u16 = 200;

/// A response that consists of a status line only: no header fields, no body.
#[derive(Clone, Copy, Debug, PartialEq, Eq, Structural)]
pub struct ShellResponse {
    /// The status code.
    pub status: u16,
}

impl ShellResponse {
    /// The status code.
    pub fn status(&self) -> (status: u16)
        ensures
            status == self.status,
    {
        self.status
    }
}

/// The answer to a request that the proxy refuses: status 400, nothing else.
pub fn bad_request() -> (response: ShellResponse)
    ensures
        response == (ShellResponse { status: BAD_REQUEST }),
{
    ShellResponse { status: BAD_REQUEST }
}

/// The answer to a CONNECT request whose tunnel is being set up: status 200,
/// nothing else.
pub fn established() -> (response: ShellResponse)
    ensures
        response == (ShellResponse { status: OK }),
{
    ShellResponse { status: OK }
}

/// The body to hand on with the handshake response of an origin: the bytes
/// that came with it, and no bytes where none came.
pub fn handshake_body(body: Option<Vec<u8>>) -> (bytes: Vec<u8>)
    ensures
        bytes@ == match body {
            Some(body) => body@,
            None => Seq::<u8>::empty(),
        },
{
    match body {
        Some(body) => body,
        None => Vec::new(),
    }
}

} // verus!
