//! Protocol sniffing on the first bytes of a tunnelled connection.

use vstd::prelude::*;

verus! {

/// What the first bytes of a tunnelled connection look like.
#[derive(Clone, Copy, Debug, PartialEq, Eq, Structural)]
pub enum Protocol {
    /// The bytes spell `GET `: a plaintext HTTP request.
    PlainHttp,
    /// The bytes open a TLS handshake record.
    Tls,
    /// Anything else.
    Unknown,
}

/// The four bytes `GET `.
pub open spec fn is_get_marker(buffer: Seq<u8>) -> bool {
    buffer.len() == 4 && buffer[0] == 0x47 && buffer[1] == 0x45 && buffer[2] == 0x54 && buffer[3]
        == 0x20
}

/// The two bytes that open a TLS handshake record: content type 22, major
/// version 3.
pub open spec fn is_tls_marker(buffer: Seq<u8>) -> bool {
    buffer.len() >= 2 && buffer[0] == 0x16 && buffer[1] == 0x03
}

/// The protocol that a sniff buffer announces.
pub open spec fn protocol_of(buffer: Seq<u8>) -> Protocol {
    if is_get_marker(buffer) {
        Protocol::PlainHttp
    } else if is_tls_marker(buffer) {
        Protocol::Tls
    } else {
        Protocol::Unknown
    }
}

/// Classifies the sniff buffer of a tunnelled connection.
pub fn classify(buffer: &[u8; 4]) -> (protocol: Protocol)
    ensures
        protocol == protocol_of(buffer@),
{
    if buffer[0] == 0x47 && buffer[1] == 0x45 && buffer[2] == 0x54 && buffer[3] == 0x20 {
        Protocol::PlainHttp
    } else if buffer[0] == 0x16 && buffer[1] == 0x03 {
        Protocol::Tls
    } else {
        Protocol::Unknown
    }
}

/// What becomes of a tunnelled connection.
#[derive(Clone, Copy, Debug, PartialEq, Eq, Structural)]
pub enum Route {
    /// The stream is served as plaintext HTTP by the proxy itself.
    ServePlain,
    /// The proxy answers the TLS handshake with a certificate of its own and
    /// serves what is inside.
    InterceptTls,
    /// The bytes are copied to the origin and back without a look at them.
    Blind,
}

/// The route of a tunnelled connection: blind wherever the handler declines to
/// intercept, and otherwise what the first bytes call for.
pub open spec fn route_of(intercept: bool, protocol: Protocol) -> Route {
    if !intercept {
        Route::Blind
    } else {
        match protocol {
            Protocol::PlainHttp => Route::ServePlain,
            Protocol::Tls => Route::InterceptTls,
            Protocol::Unknown => Route::Blind,
        }
    }
}

/// Picks the route of a tunnelled connection from the handler's verdict and
/// the protocol that the first bytes announce.
pub fn select_route(intercept: bool, protocol: Protocol) -> (route: Route)
    ensures
        route == route_of(intercept, protocol),
{
    if !intercept {
        Route::Blind
    } else {
        match protocol {
            Protocol::PlainHttp => Route::ServePlain,
            Protocol::Tls => Route::InterceptTls,
            Protocol::Unknown => Route::Blind,
        }
    }
}

/// With the handler's consent, `GET ` leads to plaintext interception, a TLS
/// record header to TLS interception, and anything else to a blind tunnel.
/// Without it, every connection is tunnelled blind.
pub proof fn law_sniff_dispatch(intercept: bool, buffer: Seq<u8>)
    ensures
        intercept && is_get_marker(buffer) ==> route_of(intercept, protocol_of(buffer))
            == Route::ServePlain,
        intercept && is_tls_marker(buffer) ==> route_of(intercept, protocol_of(buffer))
            == Route::InterceptTls,
        intercept && !is_get_marker(buffer) && !is_tls_marker(buffer) ==> route_of(
            intercept,
            protocol_of(buffer),
        ) == Route::Blind,
        !intercept ==> route_of(intercept, protocol_of(buffer)) == Route::Blind,
{
}

} // verus!
