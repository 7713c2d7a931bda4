//! Decision logic of an intercepting HTTP/HTTPS/WebSocket forward proxy.
//!
//! A client that uses the proxy sends it plain requests, CONNECT requests that
//! open tunnels, and WebSocket upgrades. The proxy shows every request,
//! response and WebSocket frame to handlers of the user, which may change them,
//! and it looks into TLS traffic by answering the client's handshake with a
//! certificate of its own.
//!
//! Everything here is synchronous and free of I/O. The functions take plain
//! values that describe what happened on the wire, and answer with what the
//! proxy has to do next; the sockets, the tasks and the handlers live in the
//! layer around this crate.
//!
//! * [`dispatch`] routes a request and keeps the order of the handler calls.
//! * [`request`] holds the head of a request and its normal form for the
//!   outbound leg; [`headers`] and [`uri`] hold its parts.
//! * [`tunnel`] answers CONNECT requests and takes a tunnel from its first
//!   bytes to its end; [`sniff`] tells what the first bytes announce, and
//!   [`rewind`] puts them back in front of the stream.
//! * [`serve`] prepares the requests that arrive inside an intercepted tunnel
//!   for the dispatcher.
//! * [`websocket`] plans the upstream leg of an upgrade and the two directions
//!   of a bridge, and [`bridge`] takes the bridge from the dial to its end.
//! * [`context`] and [`response`] hold what handlers are told and what the
//!   proxy answers by itself.

pub mod bridge;
pub mod context;
pub mod dispatch;
pub mod headers;
pub mod request;
pub mod response;
pub mod rewind;
pub mod seqs;
pub mod serve;
pub mod sniff;
pub mod text;
pub mod tunnel;
pub mod uri;
pub mod websocket;
