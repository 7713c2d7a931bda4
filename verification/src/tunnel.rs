//! The life of a CONNECT tunnel, from the answer to the CONNECT request to the
//! end of the byte streams.
//!
//! The I/O layer owns the sockets. After each thing it has awaited it reports
//! what happened with [`advance`], and is told what to do next.

use crate::request::RequestHead;
use crate::response::{bad_request, established, ShellResponse, BAD_REQUEST, OK};
use crate::sniff::{
    classify, is_get_marker, is_tls_marker, protocol_of, route_of, select_route, Protocol, Route,
};
use crate::text::{is_prefix_of, starts_with};
use vstd::prelude::*;
use vstd::string::StringSliceAdditionalSpecFns;

verus! {

/// The answer to a CONNECT request.
#[derive(Clone, Debug, PartialEq, Eq)]
pub enum ConnectDecision {
    /// The request names an authority: the response goes out at once and the
    /// tunnel to that authority is set up in the background.
    Tunnel { authority: Vec<u8>, response: ShellResponse },
    /// The request names no authority: the response goes out and nothing
    /// else happens.
    Refuse { response: ShellResponse },
}

/// Answers a CONNECT request: an empty 200 and a tunnel where the target names
/// an authority, an empty 400 and no tunnel where it does not.
pub fn process_connect(request: &RequestHead) -> (decision: ConnectDecision)
    ensures
        match request.uri.authority {
            Some(named) => decision matches ConnectDecision::Tunnel { authority, response }
                && authority@ == named@ && response == (ShellResponse { status: OK }),
            None => decision == (ConnectDecision::Refuse {
                response: ShellResponse { status: BAD_REQUEST },
            }),
        },
{
    match &request.uri.authority {
        Some(named) => ConnectDecision::Tunnel {
            authority: named.clone(),
            response: established(),
        },
        None => ConnectDecision::Refuse { response: bad_request() },
    }
}

/// The scheme under which the proxy serves what comes through a tunnel.
#[derive(Clone, Copy, Debug, PartialEq, Eq, Structural)]
pub enum Served {
    /// The client spoke plaintext HTTP.
    Http,
    /// The client spoke TLS and the proxy terminated it.
    Https,
}

/// Where a tunnel stands.
#[derive(Clone, Copy, Debug, PartialEq, Eq)]
pub enum TunnelState {
    /// The client has not been handed over by the HTTP layer yet.
    AwaitingUpgrade,
    /// The first bytes of the client have not arrived yet.
    AwaitingPrefix,
    /// The handler has not said yet whether to intercept. `buffer` holds the
    /// `length` bytes that were read, followed by zeros.
    AwaitingVerdict { buffer: [u8; 4], length: usize },
    /// The certificate authority has not delivered yet.
    AwaitingCertificate,
    /// The TLS handshake with the client is under way.
    AwaitingHandshake,
    /// The proxy serves the client's requests itself.
    Serving { scheme: Served },
    /// The connection to the origin is being opened.
    AwaitingOrigin,
    /// Bytes are copied between client and origin.
    Relaying,
    /// The tunnel is gone.
    Closed,
}

/// What the I/O layer reports.
#[derive(Clone, Debug, PartialEq, Eq)]
pub enum TunnelEvent {
    /// The HTTP layer handed the client connection over.
    Upgraded,
    /// The HTTP layer failed to hand the client connection over.
    UpgradeFailed,
    /// A read of up to four bytes put `length` bytes at the start of
    /// `buffer`, which held four zeros before. A report that cannot come from
    /// such a read is refused.
    PrefixRead { buffer: [u8; 4], length: usize },
    /// The first read failed.
    ReadFailed,
    /// The handler said whether to intercept.
    Verdict { intercept: bool },
    /// The certificate authority delivered a server configuration.
    CertificateReady,
    /// The certificate authority delivered nothing.
    CertificateFailed,
    /// The TLS handshake with the client succeeded.
    HandshakeDone,
    /// The TLS handshake with the client failed.
    HandshakeFailed,
    /// The inner HTTP server finished without error.
    ServeDone,
    /// The inner HTTP server finished with an error that reads `message`.
    ServeFailed { message: Vec<u8> },
    /// The origin accepted the connection.
    OriginConnected,
    /// The origin could not be reached.
    OriginUnreachable,
    /// Both directions of the relay came to their end.
    RelayDone,
    /// The relay broke.
    RelayFailed,
}

/// What the I/O layer is to do next.
#[derive(Clone, Copy, Debug, PartialEq, Eq)]
pub enum TunnelAction {
    /// Read up to four bytes from the client into a buffer of four zeros.
    ReadPrefix,
    /// Put the first `length` bytes of `buffer` back in front of the client
    /// stream, then ask the handler whether to intercept.
    AskIntercept { buffer: [u8; 4], length: usize },
    /// Ask the certificate authority for a server configuration for the
    /// tunnel's authority.
    MintCertificate,
    /// Answer the client's TLS handshake with that configuration.
    AcceptTls,
    /// Serve the client's requests, each with `scheme` and the tunnel's
    /// authority put into its target.
    Serve { scheme: Served },
    /// Open a TCP connection to the tunnel's authority.
    Dial,
    /// Copy bytes between client and origin until one side closes.
    Relay,
    /// Let go of the connection.
    Stop,
}

/// Something worth a line in the log.
#[derive(Clone, Copy, Debug, PartialEq, Eq)]
pub enum Report {
    /// The client connection was never handed over.
    UpgradeFailed,
    /// The first read failed.
    ReadFailed,
    /// The first bytes, `length` of them, announce no protocol that the proxy
    /// knows; the connection is tunnelled blind.
    UnknownProtocol { buffer: [u8; 4], length: usize },
    /// No server configuration could be had for the authority.
    CertificateFailed,
    /// The TLS handshake with the client failed.
    HandshakeFailed,
    /// The inner HTTP server failed.
    ServeFailed { scheme: Served },
    /// The origin could not be reached.
    OriginUnreachable,
    /// The relay broke.
    RelayFailed,
}

/// One step of a tunnel: where it stands now, what to do, and what to log.
#[derive(Clone, Copy, Debug, PartialEq, Eq)]
pub struct Step {
    /// The state after the step.
    pub state: TunnelState,
    /// What the I/O layer is to do.
    pub action: TunnelAction,
    /// What the I/O layer is to log, if anything.
    pub report: Option<Report>,
}

/// What a read of `length` bytes into four zeros leaves behind: nothing but
/// zeros after the bytes that were read.
pub open spec fn is_read_result(buffer: Seq<u8>, length: usize) -> bool {
    length <= buffer.len() && forall|i: int| length <= i < buffer.len() ==> buffer[i] == 0
}

/// The words with which a TLS peer's unclean close shows up in the error of
/// the inner server.
pub open spec fn shutdown_noise() -> Seq<u8> {
    "error shutting down connection".spec_bytes()
}

/// An error of the inner server that is not worth a line in the log: on an
/// intercepted TLS connection, a peer that went away without saying goodbye.
pub open spec fn is_noise(scheme: Served, message: Seq<u8>) -> bool {
    scheme == Served::Https && is_prefix_of(shutdown_noise(), message)
}

/// The step that ends a tunnel.
pub open spec fn closing(report: Option<Report>) -> Step {
    Step { state: TunnelState::Closed, action: TunnelAction::Stop, report }
}

/// The step that a tunnel in `state` takes on `event`; `None` where the event
/// cannot occur in that state.
pub open spec fn next(state: TunnelState, event: TunnelEvent) -> Option<Step> {
    match (state, event) {
        (TunnelState::AwaitingUpgrade, TunnelEvent::Upgraded) => Some(
            Step {
                state: TunnelState::AwaitingPrefix,
                action: TunnelAction::ReadPrefix,
                report: None,
            },
        ),
        (TunnelState::AwaitingUpgrade, TunnelEvent::UpgradeFailed) => Some(
            closing(Some(Report::UpgradeFailed)),
        ),
        (TunnelState::AwaitingPrefix, TunnelEvent::PrefixRead { buffer, length }) => if
            is_read_result(buffer@, length) {
            Some(
                Step {
                    state: TunnelState::AwaitingVerdict { buffer, length },
                    action: TunnelAction::AskIntercept { buffer, length },
                    report: None,
                },
            )
        } else {
            None
        },
        (TunnelState::AwaitingPrefix, TunnelEvent::ReadFailed) => Some(
            closing(Some(Report::ReadFailed)),
        ),
        (
            TunnelState::AwaitingVerdict { buffer, length },
            TunnelEvent::Verdict { intercept },
        ) => Some(
            match route_of(intercept, protocol_of(buffer@)) {
                Route::ServePlain => Step {
                    state: TunnelState::Serving { scheme: Served::Http },
                    action: TunnelAction::Serve { scheme: Served::Http },
                    report: None,
                },
                Route::InterceptTls => Step {
                    state: TunnelState::AwaitingCertificate,
                    action: TunnelAction::MintCertificate,
                    report: None,
                },
                Route::Blind => Step {
                    state: TunnelState::AwaitingOrigin,
                    action: TunnelAction::Dial,
                    report: if intercept {
                        Some(Report::UnknownProtocol { buffer, length })
                    } else {
                        None
                    },
                },
            },
        ),
        (TunnelState::AwaitingCertificate, TunnelEvent::CertificateReady) => Some(
            Step {
                state: TunnelState::AwaitingHandshake,
                action: TunnelAction::AcceptTls,
                report: None,
            },
        ),
        (TunnelState::AwaitingCertificate, TunnelEvent::CertificateFailed) => Some(
            closing(Some(Report::CertificateFailed)),
        ),
        (TunnelState::AwaitingHandshake, TunnelEvent::HandshakeDone) => Some(
            Step {
                state: TunnelState::Serving { scheme: Served::Https },
                action: TunnelAction::Serve { scheme: Served::Https },
                report: None,
            },
        ),
        (TunnelState::AwaitingHandshake, TunnelEvent::HandshakeFailed) => Some(
            closing(Some(Report::HandshakeFailed)),
        ),
        (TunnelState::Serving { scheme }, TunnelEvent::ServeDone) => Some(closing(None)),
        (TunnelState::Serving { scheme }, TunnelEvent::ServeFailed { message }) => Some(
            closing(
                if is_noise(scheme, message@) {
                    None
                } else {
                    Some(Report::ServeFailed { scheme })
                },
            ),
        ),
        (TunnelState::AwaitingOrigin, TunnelEvent::OriginConnected) => Some(
            Step { state: TunnelState::Relaying, action: TunnelAction::Relay, report: None },
        ),
        (TunnelState::AwaitingOrigin, TunnelEvent::OriginUnreachable) => Some(
            closing(Some(Report::OriginUnreachable)),
        ),
        (TunnelState::Relaying, TunnelEvent::RelayDone) => Some(closing(None)),
        (TunnelState::Relaying, TunnelEvent::RelayFailed) => Some(
            closing(Some(Report::RelayFailed)),
        ),
        _ => None,
    }
}

/// The state of a tunnel that has just been spawned, and the first thing to
/// do for it: wait for the HTTP layer to hand the client connection over.
pub fn start() -> (state: TunnelState)
    ensures
        state == TunnelState::AwaitingUpgrade,
{
    TunnelState::AwaitingUpgrade
}

/// Tells whether the error of the inner server goes unlogged.
pub fn goes_unlogged(scheme: Served, message: &[u8]) -> (quiet: bool)
    ensures
        quiet == is_noise(scheme, message@),
{
    match scheme {
        Served::Https => starts_with(message, "error shutting down connection".as_bytes()),
        Served::Http => false,
    }
}

/// Tells whether `buffer` can be what a read of `length` bytes into four
/// zeros left behind.
pub fn read_fits(buffer: &[u8; 4], length: usize) -> (fits: bool)
    ensures
        fits == is_read_result(buffer@, length),
{
    if length > 4 {
        return false;
    }
    let mut at = length;
    while at < 4
        invariant
            length <= at <= 4,
            forall|i: int| length <= i < at ==> buffer@[i] == 0,
        decreases 4 - at,
    {
        if buffer[at] != 0 {
            return false;
        }
        at += 1;
    }
    true
}

fn close(report: Option<Report>) -> (step: Step)
    ensures
        step == closing(report),
{
    Step { state: TunnelState::Closed, action: TunnelAction::Stop, report }
}

/// Takes a tunnel one step further.
///
/// The answer is `None`, and the tunnel stays where it is, when the event
/// cannot occur in the given state.
pub fn advance(state: TunnelState, event: TunnelEvent) -> (step: Option<Step>)
    ensures
        step == next(state, event),
{
    match state {
        TunnelState::AwaitingUpgrade => match event {
            TunnelEvent::Upgraded => Some(
                Step {
                    state: TunnelState::AwaitingPrefix,
                    action: TunnelAction::ReadPrefix,
                    report: None,
                },
            ),
            TunnelEvent::UpgradeFailed => Some(close(Some(Report::UpgradeFailed))),
            _ => None,
        },
        TunnelState::AwaitingPrefix => match event {
            TunnelEvent::PrefixRead { buffer, length } => {
                if read_fits(&buffer, length) {
                    Some(
                        Step {
                            state: TunnelState::AwaitingVerdict { buffer, length },
                            action: TunnelAction::AskIntercept { buffer, length },
                            report: None,
                        },
                    )
                } else {
                    None
                }
            },
            TunnelEvent::ReadFailed => Some(close(Some(Report::ReadFailed))),
            _ => None,
        },
        TunnelState::AwaitingVerdict { buffer, length } => match event {
            TunnelEvent::Verdict { intercept } => {
                match select_route(intercept, classify(&buffer)) {
                    Route::ServePlain => Some(
                        Step {
                            state: TunnelState::Serving { scheme: Served::Http },
                            action: TunnelAction::Serve { scheme: Served::Http },
                            report: None,
                        },
                    ),
                    Route::InterceptTls => Some(
                        Step {
                            state: TunnelState::AwaitingCertificate,
                            action: TunnelAction::MintCertificate,
                            report: None,
                        },
                    ),
                    Route::Blind => Some(
                        Step {
                            state: TunnelState::AwaitingOrigin,
                            action: TunnelAction::Dial,
                            report: if intercept {
                                Some(Report::UnknownProtocol { buffer, length })
                            } else {
                                None
                            },
                        },
                    ),
                }
            },
            _ => None,
        },
        TunnelState::AwaitingCertificate => match event {
            TunnelEvent::CertificateReady => Some(
                Step {
                    state: TunnelState::AwaitingHandshake,
                    action: TunnelAction::AcceptTls,
                    report: None,
                },
            ),
            TunnelEvent::CertificateFailed => Some(close(Some(Report::CertificateFailed))),
            _ => None,
        },
        TunnelState::AwaitingHandshake => match event {
            TunnelEvent::HandshakeDone => Some(
                Step {
                    state: TunnelState::Serving { scheme: Served::Https },
                    action: TunnelAction::Serve { scheme: Served::Https },
                    report: None,
                },
            ),
            TunnelEvent::HandshakeFailed => Some(close(Some(Report::HandshakeFailed))),
            _ => None,
        },
        TunnelState::Serving { scheme } => match event {
            TunnelEvent::ServeDone => Some(close(None)),
            TunnelEvent::ServeFailed { message } => {
                if goes_unlogged(scheme, message.as_slice()) {
                    Some(close(None))
                } else {
                    Some(close(Some(Report::ServeFailed { scheme })))
                }
            },
            _ => None,
        },
        TunnelState::AwaitingOrigin => match event {
            TunnelEvent::OriginConnected => Some(
                Step { state: TunnelState::Relaying, action: TunnelAction::Relay, report: None },
            ),
            TunnelEvent::OriginUnreachable => Some(close(Some(Report::OriginUnreachable))),
            _ => None,
        },
        TunnelState::Relaying => match event {
            TunnelEvent::RelayDone => Some(close(None)),
            TunnelEvent::RelayFailed => Some(close(Some(Report::RelayFailed))),
            _ => None,
        },
        TunnelState::Closed => None,
    }
}

/// The state that a fresh tunnel reaches when `events` occur in this order;
/// `None` if one of them could not occur where the tunnel stood.
pub open spec fn state_after(events: Seq<TunnelEvent>) -> Option<TunnelState>
    decreases events.len(),
{
    if events.len() == 0 {
        Some(TunnelState::AwaitingUpgrade)
    } else {
        match state_after(events.drop_last()) {
            Some(state) => match next(state, events.last()) {
                Some(step) => Some(step.state),
                None => None,
            },
            None => None,
        }
    }
}

/// The second event reports the first bytes, and they announce `protocol`.
pub open spec fn sniffed(events: Seq<TunnelEvent>, protocol: Protocol) -> bool {
    &&& events.len() >= 2
    &&& events[1] matches TunnelEvent::PrefixRead { buffer, length }
    &&& protocol_of(buffer@) == protocol
}

/// The third event is the handler's verdict, and it is `intercept`.
pub open spec fn decided(events: Seq<TunnelEvent>, intercept: bool) -> bool {
    events.len() >= 3 && events[2] == (TunnelEvent::Verdict { intercept })
}

/// The handler declined, or the first bytes announce nothing known.
pub open spec fn left_alone(events: Seq<TunnelEvent>) -> bool {
    decided(events, false) || (decided(events, true) && sniffed(events, Protocol::Unknown))
}

/// What the events that led to `state` must have been.
pub open spec fn led_to(events: Seq<TunnelEvent>, state: TunnelState) -> bool {
    match state {
        TunnelState::AwaitingUpgrade => events.len() == 0,
        TunnelState::AwaitingPrefix => events.len() == 1,
        TunnelState::AwaitingVerdict { buffer, length } => events.len() == 2 && is_read_result(
            buffer@,
            length,
        ) && events[1] == (TunnelEvent::PrefixRead { buffer, length }),
        TunnelState::AwaitingCertificate => events.len() == 3 && decided(events, true) && sniffed(
            events,
            Protocol::Tls,
        ),
        TunnelState::AwaitingHandshake => events.len() == 4 && decided(events, true) && sniffed(
            events,
            Protocol::Tls,
        ),
        TunnelState::Serving { scheme: Served::Https } => events.len() == 5 && decided(
            events,
            true,
        ) && sniffed(events, Protocol::Tls),
        TunnelState::Serving { scheme: Served::Http } => events.len() == 3 && decided(
            events,
            true,
        ) && sniffed(events, Protocol::PlainHttp),
        TunnelState::AwaitingOrigin => events.len() == 3 && left_alone(events),
        TunnelState::Relaying => events.len() == 4 && left_alone(events),
        TunnelState::Closed => 1 <= events.len() <= 6,
    }
}

/// Every state of a tunnel tells how the tunnel got there.
///
/// In particular the proxy serves a tunnelled connection itself only after
/// the handler agreed to interception and the first bytes announced plaintext
/// HTTP or TLS, it answers a TLS handshake only after the certificate
/// authority delivered, and it relays blind in every other case.
pub proof fn law_tunnel_history(events: Seq<TunnelEvent>)
    requires
        state_after(events) is Some,
    ensures
        led_to(events, state_after(events)->0),
    decreases events.len(),
{
    if events.len() > 0 {
        let before = events.drop_last();
        law_tunnel_history(before);
    }
}

/// No tunnel takes more than six steps, and none takes a step after it has
/// closed.
pub proof fn law_tunnel_ends(events: Seq<TunnelEvent>, event: TunnelEvent)
    ensures
        state_after(events) is Some ==> events.len() <= 6,
        next(TunnelState::Closed, event) is None,
{
    if state_after(events) is Some {
        law_tunnel_history(events);
    }
}

/// Whatever comes of the thing that a tunnel waits for, the tunnel has a next
/// step for it.
pub proof fn law_tunnel_handles_every_outcome(
    buffer: [u8; 4],
    length: usize,
    intercept: bool,
    scheme: Served,
    message: Vec<u8>,
)
    requires
        is_read_result(buffer@, length),
    ensures
        next(TunnelState::AwaitingUpgrade, TunnelEvent::Upgraded) is Some,
        next(TunnelState::AwaitingUpgrade, TunnelEvent::UpgradeFailed) is Some,
        next(TunnelState::AwaitingPrefix, TunnelEvent::PrefixRead { buffer, length }) is Some,
        next(TunnelState::AwaitingPrefix, TunnelEvent::ReadFailed) is Some,
        next(
            TunnelState::AwaitingVerdict { buffer, length },
            TunnelEvent::Verdict { intercept },
        ) is Some,
        next(TunnelState::AwaitingCertificate, TunnelEvent::CertificateReady) is Some,
        next(TunnelState::AwaitingCertificate, TunnelEvent::CertificateFailed) is Some,
        next(TunnelState::AwaitingHandshake, TunnelEvent::HandshakeDone) is Some,
        next(TunnelState::AwaitingHandshake, TunnelEvent::HandshakeFailed) is Some,
        next(TunnelState::Serving { scheme }, TunnelEvent::ServeDone) is Some,
        next(TunnelState::Serving { scheme }, TunnelEvent::ServeFailed { message }) is Some,
        next(TunnelState::AwaitingOrigin, TunnelEvent::OriginConnected) is Some,
        next(TunnelState::AwaitingOrigin, TunnelEvent::OriginUnreachable) is Some,
        next(TunnelState::Relaying, TunnelEvent::RelayDone) is Some,
        next(TunnelState::Relaying, TunnelEvent::RelayFailed) is Some,
{
}

/// What the proxy decides on is what the next reader of the stream gets to
/// see: a buffer that spells `GET ` was read in full, and of a buffer that
/// opens a TLS record at least the two bytes that say so were read, so they
/// are among the bytes that are put back in front of the stream.
pub proof fn law_markers_are_replayed(buffer: [u8; 4], length: usize)
    requires
        is_read_result(buffer@, length),
    ensures
        is_get_marker(buffer@) ==> length == 4,
        is_tls_marker(buffer@) ==> length >= 2,
{
    if is_get_marker(buffer@) && length < 4 {
        assert(buffer@[3] == 0);
    }
    if is_tls_marker(buffer@) && length < 2 {
        assert(buffer@[1] == 0);
    }
}

/// Where the handler declines to intercept, the tunnel is blind whatever the
/// first bytes were: the proxy neither serves the connection nor answers a
/// handshake on it.
pub proof fn law_declined_is_blind(events: Seq<TunnelEvent>)
    requires
        decided(events, false),
        state_after(events) is Some,
    ensures
        state_after(events)->0 is AwaitingOrigin || state_after(events)->0 is Relaying
            || state_after(events)->0 is Closed,
{
    law_tunnel_history(events);
}

} // verus!
