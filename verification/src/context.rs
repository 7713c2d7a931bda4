//! What the proxy tells a handler about the traffic it is shown.

use crate::uri::{UriModel, UriParts};
use vstd::prelude::*;

verus! {

/// The address of a peer on the network.
#[derive(Clone, Copy, Debug, PartialEq, Eq)]
pub enum PeerAddr {
    /// An IPv4 address and a port.
    V4 { octets: [u8; 4], port: u16 },
    /// An IPv6 address and a port.
    V6 { segments: [u16; 8], port: u16 },
}

/// What a handler is told with every request, response and error: where the
/// client sits. It stays the same for the whole of a request.
#[derive(Clone, Copy, Debug, PartialEq, Eq)]
pub struct HttpContext {
    /// The address of the client.
    pub client_addr: PeerAddr,
}

/// The context of the requests of one client.
pub fn context(client_addr: PeerAddr) -> (context: HttpContext)
    ensures
        context == (HttpContext { client_addr }),
{
    HttpContext { client_addr }
}

/// What a handler is told with the frames of one direction of a WebSocket
/// connection.
#[allow(inconsistent_fields)]
#[derive(Clone, Debug, PartialEq, Eq)]
pub enum WebSocketContext {
    /// Frames on their way from the client to the origin.
    ClientToServer { src: PeerAddr, dst: UriParts },
    /// Frames on their way from the origin to the client.
    ServerToClient { src: UriParts, dst: PeerAddr },
}

/// The context of one direction, with its URI read as plain values.
#[allow(inconsistent_fields)]
pub enum WebSocketContextModel {
    /// Frames on their way from the client to the origin.
    ClientToServer { src: PeerAddr, dst: UriModel },
    /// Frames on their way from the origin to the client.
    ServerToClient { src: UriModel, dst: PeerAddr },
}

impl View for WebSocketContext {
    type V = WebSocketContextModel;

    open spec fn view(&self) -> WebSocketContextModel {
        match *self {
            WebSocketContext::ClientToServer { src, dst } => WebSocketContextModel::ClientToServer {
                src,
                dst: dst@,
            },
            WebSocketContext::ServerToClient { src, dst } => WebSocketContextModel::ServerToClient {
                src: src@,
                dst,
            },
        }
    }
}

} // verus!
