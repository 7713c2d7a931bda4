//! WebSocket upgrades: which requests ask for one, how the upstream leg is
//! planned, and which ends each direction of a bridge connects.
//!
//! Whether a request asks for an upgrade, and whether its handshake can be
//! answered, is for `hyper_tungstenite` to say: the two small functions that
//! ask it have contracts that are taken on trust from its source.

use crate::context::{PeerAddr, WebSocketContext, WebSocketContextModel};
use crate::headers::{fields, Fields};
use crate::request::RequestHead;
use crate::response::{bad_request, ShellResponse, BAD_REQUEST};
use crate::uri::UriParts;
use http::header::{HeaderMap, HeaderValue};
use vstd::prelude::*;

verus! {

/// Whether `hyper_tungstenite::is_upgrade_request` takes a request with these
/// header fields for a WebSocket upgrade request.
pub uninterp spec fn asks_for_websocket(contents: Map<Seq<char>, Seq<Seq<u8>>>) -> bool;

/// The name of the field that lists what a connection is to do next.
pub open spec fn connection_name() -> Seq<char> {
    "connection"@
}

/// The name of the field that lists the protocols to switch to.
pub open spec fn upgrade_name() -> Seq<char> {
    "upgrade"@
}

/// The name of the field that carries the client's handshake key.
pub open spec fn key_name() -> Seq<char> {
    "sec-websocket-key"@
}

/// The name of the field that carries the WebSocket protocol version.
pub open spec fn version_name() -> Seq<char> {
    "sec-websocket-version"@
}

/// The only protocol version that can be served: the two digits `13`.
pub open spec fn served_version() -> Seq<u8> {
    seq![0x31u8, 0x33u8]
}

/// The header fields of a request whose handshake the server side can answer:
/// there is a key, and the first version field reads `13`.
pub open spec fn opens_handshake(contents: Fields) -> bool {
    &&& contents.dom().contains(key_name())
    &&& contents.dom().contains(version_name())
    &&& contents[version_name()].len() > 0
    &&& contents[version_name()][0] == served_version()
}

/// `hyper_tungstenite::is_upgrade_request`, on a request that carries a copy of
/// these header fields and nothing else. The answer depends on the fields
/// alone. It is negative where the connection field or the upgrade field is
/// missing, since the function looks for a token in the values of each.
#[verifier::external_body]
pub(crate) fn upgrade_requested(headers: &HeaderMap<HeaderValue>) -> (asked: bool)
    ensures
        asked == asks_for_websocket(fields(*headers)),
        !fields(*headers).dom().contains(connection_name()) ==> !asked,
        !fields(*headers).dom().contains(upgrade_name()) ==> !asked,
{
    let mut request = hyper::Request::new(());
    *request.headers_mut() = headers.clone();
    hyper_tungstenite::is_upgrade_request(&request)
}

/// `hyper_tungstenite::upgrade`, on a request that carries a copy of these
/// header fields and nothing else; what it builds is dropped. It succeeds
/// exactly when there is a key field and the first version field reads `13`.
#[verifier::external_body]
pub(crate) fn handshake_accepted(headers: &HeaderMap<HeaderValue>) -> (accepted: bool)
    ensures
        accepted == opens_handshake(fields(*headers)),
{
    let mut request = hyper::Request::new(());
    *request.headers_mut() = headers.clone();
    hyper_tungstenite::upgrade(&mut request, None).is_ok()
}

/// What to do with an upgrade request.
#[derive(Debug, PartialEq)]
pub enum UpgradePlan {
    /// Dial the origin with `request`, whose target names a WebSocket scheme.
    Dial { request: RequestHead },
    /// Answer with `response` and do nothing else.
    Refuse { response: ShellResponse },
}

/// The plan for an upgrade request: refusal with status 400 where the target
/// cannot be dialled or the handshake cannot be answered, and otherwise the
/// same request with its target turned into a WebSocket URI.
pub open spec fn planned(request: RequestHead) -> UpgradePlan {
    match request.uri.websocket_target() {
        Ok(target) if opens_handshake(fields(request.headers)) => UpgradePlan::Dial {
            request: RequestHead {
                method: request.method,
                uri: target,
                version: request.version,
                headers: request.headers,
            },
        },
        _ => UpgradePlan::Refuse { response: ShellResponse { status: BAD_REQUEST } },
    }
}

/// Plans the upstream leg of a WebSocket upgrade.
pub fn plan_upgrade(request: RequestHead) -> (plan: UpgradePlan)
    ensures
        plan == planned(request),
{
    let RequestHead { method, uri, version, headers } = request;
    match uri.into_websocket() {
        Ok(target) => {
            if handshake_accepted(&headers) {
                UpgradePlan::Dial { request: RequestHead { method, uri: target, version, headers } }
            } else {
                UpgradePlan::Refuse { response: bad_request() }
            }
        },
        Err(_) => UpgradePlan::Refuse { response: bad_request() },
    }
}

/// An upgrade request is refused with status 400 where its target names no
/// scheme, no authority or no path, where it carries no handshake key, and
/// where it does not ask for protocol version 13.
pub proof fn law_upgrade_preconditions(request: RequestHead)
    requires
        request.uri.scheme is None || request.uri.authority is None
            || request.uri.path_and_query is None || !request@.fields.dom().contains(key_name())
            || !request@.fields.dom().contains(version_name())
            || request@.fields[version_name()].len() == 0
            || request@.fields[version_name()][0] != served_version(),
    ensures
        planned(request) == (UpgradePlan::Refuse { response: ShellResponse { status: 400 } }),
{
}

/// An upgrade request that can be dialled and answered is dialled under `ws`
/// where it came under `http`, and under `wss` in every other case, with its
/// method, version, header fields, authority and path as they were.
pub proof fn law_upgrade_dials(request: RequestHead)
    requires
        request.uri.scheme is Some,
        request.uri.authority is Some,
        request.uri.path_and_query is Some,
        opens_handshake(request@.fields),
    ensures
        planned(request) == (UpgradePlan::Dial {
            request: RequestHead {
                method: request.method,
                uri: UriParts {
                    scheme: Some(crate::uri::websocket_scheme(request.uri.scheme->0)),
                    authority: request.uri.authority,
                    path_and_query: request.uri.path_and_query,
                },
                version: request.version,
                headers: request.headers,
            },
        }),
{
}

/// One end of a bridge.
#[derive(Clone, Copy, Debug, PartialEq, Eq, Structural)]
pub enum Endpoint {
    /// The socket that the proxy accepted from the client.
    Client,
    /// The socket that the proxy opened to the origin.
    Origin,
}

/// One direction of a bridge: frames are read from the stream half of
/// `source` and written to the sink half of `sink`, and the handler is told
/// `context`.
#[derive(Clone, Debug, PartialEq, Eq)]
pub struct PumpPlan {
    /// Where the frames come from.
    pub source: Endpoint,
    /// Where the frames go.
    pub sink: Endpoint,
    /// What the handler is told.
    pub context: WebSocketContext,
}

/// Plans the two directions of a bridge between the client at `client_addr`
/// and the origin at `uri`: first the one from the origin to the client, then
/// the one from the client to the origin. Each owns one stream half and one
/// sink half, and they share neither.
pub fn pump_plans(uri: UriParts, client_addr: PeerAddr) -> (plans: (PumpPlan, PumpPlan))
    ensures
        plans.0.source == Endpoint::Origin,
        plans.0.sink == Endpoint::Client,
        plans.0.context@ == (WebSocketContextModel::ServerToClient { src: uri@, dst: client_addr }),
        plans.1.source == Endpoint::Client,
        plans.1.sink == Endpoint::Origin,
        plans.1.context@ == (WebSocketContextModel::ClientToServer { src: client_addr, dst: uri@ }),
{
    let to_client = PumpPlan {
        source: Endpoint::Origin,
        sink: Endpoint::Client,
        context: WebSocketContext::ServerToClient { src: uri.copy(), dst: client_addr },
    };
    let to_origin = PumpPlan {
        source: Endpoint::Client,
        sink: Endpoint::Origin,
        context: WebSocketContext::ClientToServer { src: client_addr, dst: uri },
    };
    (to_client, to_origin)
}

} // verus!
