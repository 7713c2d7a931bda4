//! The dispatcher that every request goes through, whether it arrived on the
//! listener or inside an intercepted tunnel.
//!
//! [`route_request`] decides what becomes of a request that the request
//! handler let pass. [`advance`] keeps the order of the calls around it: the
//! request handler first, then the outbound client, then the response handler
//! or the error handler. Whatever of these does not come back, the client is
//! answered.

use crate::headers::{cookie_name, has_room};
use crate::request::{normalize_request, normalized, RequestHead};
use crate::response::{bad_request, ShellResponse, BAD_REQUEST, OK};
use crate::seqs::lemma_contains_last;
use crate::tunnel::{process_connect, ConnectDecision};
use crate::websocket::{
    asks_for_websocket, connection_name, opens_handshake, plan_upgrade, planned, upgrade_name,
    upgrade_requested, UpgradePlan,
};
use vstd::prelude::*;

verus! {

/// What becomes of a request that the request handler let pass.
#[derive(Debug, PartialEq)]
pub enum Dispatch {
    /// Answer with `response` at once and set up a tunnel to `authority` in
    /// the background; `request` is the CONNECT request, to be shown to the
    /// handler when it is asked whether to intercept.
    Tunnel { authority: Vec<u8>, request: RequestHead, response: ShellResponse },
    /// Answer with `response`.
    Refuse { response: ShellResponse },
    /// Dial the origin's WebSocket with `request` and bridge it to the
    /// client.
    Bridge { request: RequestHead },
    /// Send `request` with the outbound client.
    Forward { request: RequestHead },
}

/// The four things that can become of a request.
#[derive(Clone, Copy, Debug, PartialEq, Eq, Structural)]
pub enum RouteKind {
    /// A tunnel is opened.
    Tunnel,
    /// The request is refused.
    Refuse,
    /// A WebSocket bridge is opened.
    Bridge,
    /// The request is forwarded.
    Forward,
}

impl Dispatch {
    /// Which of the four it is.
    pub open spec fn route(self) -> RouteKind {
        match self {
            Dispatch::Tunnel { .. } => RouteKind::Tunnel,
            Dispatch::Refuse { .. } => RouteKind::Refuse,
            Dispatch::Bridge { .. } => RouteKind::Bridge,
            Dispatch::Forward { .. } => RouteKind::Forward,
        }
    }

    /// Which of the four it is.
    pub fn kind(&self) -> (kind: RouteKind)
        ensures
            kind == self.route(),
    {
        match self {
            Dispatch::Tunnel { .. } => RouteKind::Tunnel,
            Dispatch::Refuse { .. } => RouteKind::Refuse,
            Dispatch::Bridge { .. } => RouteKind::Bridge,
            Dispatch::Forward { .. } => RouteKind::Forward,
        }
    }
}

/// `dispatch` is what becomes of `request`, where `upgrade` tells whether the
/// request asks for a WebSocket upgrade.
///
/// A CONNECT request opens a tunnel to the authority it names, and is refused
/// with status 400 where it names none. Any other request that asks for a
/// WebSocket upgrade is bridged as planned, or refused as planned. What is
/// left is forwarded in normal form. The one request that is refused with
/// status 400 instead has cookie values to join and a header map that, full
/// to the limit of its table, does not take the joined value; a map that has
/// room always takes it.
pub open spec fn dispatches(request: RequestHead, upgrade: bool, dispatch: Dispatch) -> bool {
    if request@.method is Connect {
        match request.uri.authority {
            Some(named) => {
                &&& dispatch matches Dispatch::Tunnel { authority, request: shown, response }
                &&& authority@ == named@
                &&& shown == request
                &&& response == (ShellResponse { status: OK })
            },
            None => dispatch == (Dispatch::Refuse {
                response: ShellResponse { status: BAD_REQUEST },
            }),
        }
    } else if upgrade {
        match planned(request) {
            UpgradePlan::Dial { request: dialled } => dispatch == (Dispatch::Bridge {
                request: dialled,
            }),
            UpgradePlan::Refuse { response } => dispatch == (Dispatch::Refuse { response }),
        }
    } else {
        match dispatch {
            Dispatch::Forward { request: forwarded } => forwarded@ == normalized(request@),
            Dispatch::Refuse { response } => response == (ShellResponse { status: BAD_REQUEST })
                && !has_room(request@.fields) && request@.fields.dom().contains(cookie_name()),
            _ => false,
        }
    }
}

/// What becomes of a request that is neither a CONNECT request nor an upgrade
/// request, once it is known whether it could be normalized: its normal form
/// is forwarded, and where there is none the request is refused with status
/// 400.
pub fn forward(normal: Option<RequestHead>) -> (dispatch: Dispatch)
    ensures
        dispatch == match normal {
            Some(request) => Dispatch::Forward { request },
            None => Dispatch::Refuse { response: ShellResponse { status: BAD_REQUEST } },
        },
{
    match normal {
        Some(request) => Dispatch::Forward { request },
        None => Dispatch::Refuse { response: bad_request() },
    }
}

/// Decides what becomes of a request that the request handler let pass.
///
/// Whether a request asks for a WebSocket upgrade is for the WebSocket layer
/// to say; a request without a connection field or without an upgrade field
/// does not, and is never bridged.
pub fn route_request(request: RequestHead) -> (dispatch: Dispatch)
    ensures
        dispatches(request, asks_for_websocket(request@.fields), dispatch),
        !request@.fields.dom().contains(connection_name()) || !request@.fields.dom().contains(
            upgrade_name(),
        ) ==> dispatch.route() != RouteKind::Bridge,
{
    let upgrade = !request.method.is_connect() && upgrade_requested(&request.headers);
    route_known(request, upgrade)
}

/// Decides what becomes of a request of which it is known whether it asks for
/// a WebSocket upgrade.
pub fn route_known(request: RequestHead, upgrade: bool) -> (dispatch: Dispatch)
    ensures
        dispatches(request, upgrade, dispatch),
{
    if request.method.is_connect() {
        match process_connect(&request) {
            ConnectDecision::Tunnel { authority, response } => Dispatch::Tunnel {
                authority,
                request,
                response,
            },
            ConnectDecision::Refuse { response } => Dispatch::Refuse { response },
        }
    } else if upgrade {
        match plan_upgrade(request) {
            UpgradePlan::Dial { request } => Dispatch::Bridge { request },
            UpgradePlan::Refuse { response } => Dispatch::Refuse { response },
        }
    } else {
        forward(normalize_request(request))
    }
}

/// A request that is neither a CONNECT request nor an upgrade request is
/// forwarded in normal form if it carries no cookies, and if its header map
/// has room.
pub proof fn law_requests_are_forwarded(request: RequestHead, dispatch: Dispatch)
    requires
        !(request@.method is Connect),
        has_room(request@.fields) || !request@.fields.dom().contains(cookie_name()),
        dispatches(request, false, dispatch),
    ensures
        dispatch matches Dispatch::Forward { request: forwarded } && forwarded@ == normalized(
            request@,
        ),
{
}

/// A CONNECT request whose target names no authority is answered with status
/// 400, and no tunnel is opened for it.
pub proof fn law_connect_needs_authority(request: RequestHead, upgrade: bool, dispatch: Dispatch)
    requires
        request@.method is Connect,
        request.uri.authority is None,
        dispatches(request, upgrade, dispatch),
    ensures
        dispatch == (Dispatch::Refuse { response: ShellResponse { status: 400 } }),
        dispatch.route() != RouteKind::Tunnel,
{
}

/// An upgrade request is answered with status 400 where its target names no
/// scheme, no authority or no path, where it carries no handshake key, and
/// where it does not ask for protocol version 13. No bridge is opened for it.
pub proof fn law_upgrade_needs_target_and_handshake(request: RequestHead, dispatch: Dispatch)
    requires
        !(request@.method is Connect),
        request.uri.scheme is None || request.uri.authority is None
            || request.uri.path_and_query is None || !opens_handshake(request@.fields),
        dispatches(request, true, dispatch),
    ensures
        dispatch == (Dispatch::Refuse { response: ShellResponse { status: 400 } }),
{
}

/// Where a request stands in the dispatcher.
#[derive(Clone, Copy, Debug, PartialEq, Eq, Structural)]
pub enum Phase {
    /// The request handler has the request.
    HandlingRequest,
    /// The WebSocket bridge is being set up.
    Bridging,
    /// The outbound client has the request.
    Forwarding,
    /// The response handler has the response.
    HandlingResponse,
    /// The error handler has the error.
    HandlingError,
    /// The client has its answer.
    Done,
}

/// What the I/O layer reports.
#[derive(Clone, Copy, Debug, PartialEq, Eq, Structural)]
pub enum Signal {
    /// The request handler returned a response of its own.
    Responded,
    /// The request handler returned a request, and this became of it.
    Routed { kind: RouteKind },
    /// The bridge has a response for the client.
    BridgeAnswered,
    /// The outbound client returned a response.
    UpstreamReplied,
    /// The outbound client returned an error.
    UpstreamFailed,
    /// The response handler or the error handler returned.
    Handled,
    /// What was awaited did not come back: the handler or the outbound client
    /// panicked, or failed in a way that nothing else reports.
    Failed,
}

/// What the I/O layer is to do next.
#[derive(Clone, Copy, Debug, PartialEq, Eq, Structural)]
pub enum Command {
    /// Show the request to the request handler.
    CallRequestHandler,
    /// Answer with the response of the request handler.
    ReturnHandlerResponse,
    /// Answer with the shell response of the dispatch and set up the tunnel in
    /// the background.
    OpenTunnel,
    /// Answer with the shell response of the dispatch.
    Refuse,
    /// Set up the bridge and wait for its response.
    OpenBridge,
    /// Answer with the response of the bridge.
    ReturnBridgeResponse,
    /// Send the request with the outbound client.
    SendUpstream,
    /// Show the origin's response to the response handler.
    CallResponseHandler,
    /// Show the outbound client's error to the error handler.
    CallErrorHandler,
    /// Answer with what the response handler or the error handler returned.
    ReturnHandled,
    /// Answer with `response` in place of what did not come back.
    Excuse { response: ShellResponse },
}

impl Command {
    /// The command hands the client its answer.
    pub open spec fn answers(self) -> bool {
        self is ReturnHandlerResponse || self is OpenTunnel || self is Refuse
            || self is ReturnBridgeResponse || self is ReturnHandled || self is Excuse
    }
}

/// The step that ends a request whose handler or outbound client did not come
/// back: the client is answered with status 400.
pub open spec fn excusing() -> (Phase, Command) {
    (Phase::Done, Command::Excuse { response: ShellResponse { status: BAD_REQUEST } })
}

/// The step that a request in `phase` takes on `signal`; `None` where the
/// signal cannot occur in that phase.
///
/// Whatever fails to come back while the client waits for its answer, the
/// client is answered with status 400; nothing is handed on to the caller as
/// an error.
pub open spec fn next(phase: Phase, signal: Signal) -> Option<(Phase, Command)> {
    match (phase, signal) {
        (Phase::Done, _) => None,
        (_, Signal::Failed) => Some(excusing()),
        (Phase::HandlingRequest, Signal::Responded) => Some(
            (Phase::Done, Command::ReturnHandlerResponse),
        ),
        (Phase::HandlingRequest, Signal::Routed { kind }) => Some(
            match kind {
                RouteKind::Tunnel => (Phase::Done, Command::OpenTunnel),
                RouteKind::Refuse => (Phase::Done, Command::Refuse),
                RouteKind::Bridge => (Phase::Bridging, Command::OpenBridge),
                RouteKind::Forward => (Phase::Forwarding, Command::SendUpstream),
            },
        ),
        (Phase::Bridging, Signal::BridgeAnswered) => Some(
            (Phase::Done, Command::ReturnBridgeResponse),
        ),
        (Phase::Forwarding, Signal::UpstreamReplied) => Some(
            (Phase::HandlingResponse, Command::CallResponseHandler),
        ),
        (Phase::Forwarding, Signal::UpstreamFailed) => Some(
            (Phase::HandlingError, Command::CallErrorHandler),
        ),
        (Phase::HandlingResponse, Signal::Handled) => Some((Phase::Done, Command::ReturnHandled)),
        (Phase::HandlingError, Signal::Handled) => Some((Phase::Done, Command::ReturnHandled)),
        _ => None,
    }
}

/// Takes a request in: the request handler is the first to see it.
pub fn start() -> (first: (Phase, Command))
    ensures
        first == (Phase::HandlingRequest, Command::CallRequestHandler),
{
    (Phase::HandlingRequest, Command::CallRequestHandler)
}

fn excuse() -> (step: Option<(Phase, Command)>)
    ensures
        step == Some(excusing()),
{
    Some((Phase::Done, Command::Excuse { response: bad_request() }))
}

/// Takes a request one step further.
///
/// The answer is `None`, and the request stays where it is, when the signal
/// cannot occur in the given phase.
pub fn advance(phase: Phase, signal: Signal) -> (step: Option<(Phase, Command)>)
    ensures
        step == next(phase, signal),
{
    match phase {
        Phase::HandlingRequest => match signal {
            Signal::Responded => Some((Phase::Done, Command::ReturnHandlerResponse)),
            Signal::Routed { kind } => match kind {
                RouteKind::Tunnel => Some((Phase::Done, Command::OpenTunnel)),
                RouteKind::Refuse => Some((Phase::Done, Command::Refuse)),
                RouteKind::Bridge => Some((Phase::Bridging, Command::OpenBridge)),
                RouteKind::Forward => Some((Phase::Forwarding, Command::SendUpstream)),
            },
            Signal::Failed => excuse(),
            _ => None,
        },
        Phase::Bridging => match signal {
            Signal::BridgeAnswered => Some((Phase::Done, Command::ReturnBridgeResponse)),
            Signal::Failed => excuse(),
            _ => None,
        },
        Phase::Forwarding => match signal {
            Signal::UpstreamReplied => Some(
                (Phase::HandlingResponse, Command::CallResponseHandler),
            ),
            Signal::UpstreamFailed => Some((Phase::HandlingError, Command::CallErrorHandler)),
            Signal::Failed => excuse(),
            _ => None,
        },
        Phase::HandlingResponse => match signal {
            Signal::Handled => Some((Phase::Done, Command::ReturnHandled)),
            Signal::Failed => excuse(),
            _ => None,
        },
        Phase::HandlingError => match signal {
            Signal::Handled => Some((Phase::Done, Command::ReturnHandled)),
            Signal::Failed => excuse(),
            _ => None,
        },
        Phase::Done => None,
    }
}

/// How far a request has come, and every command given for it so far.
pub struct Progress {
    /// Where the request stands.
    pub phase: Phase,
    /// The commands, in the order in which they were given.
    pub commands: Seq<Command>,
}

/// The progress of a request for which `signals` were reported in this
/// order; `None` if one of them could not occur where the request stood.
pub open spec fn progress(signals: Seq<Signal>) -> Option<Progress>
    decreases signals.len(),
{
    if signals.len() == 0 {
        Some(
            Progress { phase: Phase::HandlingRequest, commands: seq![Command::CallRequestHandler] },
        )
    } else {
        match progress(signals.drop_last()) {
            Some(before) => match next(before.phase, signals.last()) {
                Some((phase, command)) => Some(
                    Progress { phase, commands: before.commands.push(command) },
                ),
                None => None,
            },
            None => None,
        }
    }
}

/// How often `wanted` occurs among `commands`.
pub open spec fn occurrences(commands: Seq<Command>, wanted: Command) -> nat
    decreases commands.len(),
{
    if commands.len() == 0 {
        0
    } else {
        occurrences(commands.drop_last(), wanted) + if commands.last() == wanted {
            1nat
        } else {
            0nat
        }
    }
}

/// One for a true statement, nought for a false one.
pub open spec fn one_if(holds: bool) -> nat {
    if holds {
        1
    } else {
        0
    }
}

/// The signals of a whole transaction: the request was taken in, and the
/// client has its answer.
pub open spec fn is_transaction(signals: Seq<Signal>) -> bool {
    progress(signals) matches Some(reached) && reached.phase == Phase::Done
}

/// What the commands given so far must be in each phase.
pub open spec fn accounted(signals: Seq<Signal>, reached: Progress) -> bool {
    let replied = signals.contains(Signal::UpstreamReplied);
    let failed = signals.contains(Signal::UpstreamFailed);
    let asked = occurrences(reached.commands, Command::CallRequestHandler);
    let shown = occurrences(reached.commands, Command::CallResponseHandler);
    let excused = occurrences(reached.commands, Command::CallErrorHandler);
    &&& asked == 1
    &&& shown == one_if(replied)
    &&& excused == one_if(failed)
    &&& !(replied && failed)
    &&& reached.commands.len() == signals.len() + 1
    &&& reached.commands.last().answers() <==> reached.phase == Phase::Done
    &&& match reached.phase {
        Phase::HandlingRequest => signals.len() == 0 && !replied && !failed,
        Phase::Bridging | Phase::Forwarding => signals.len() == 1 && !replied && !failed,
        Phase::HandlingResponse => signals.len() == 2 && replied,
        Phase::HandlingError => signals.len() == 2 && failed,
        Phase::Done => 1 <= signals.len() <= 3,
    }
}

/// Whatever is reported for a request, the request handler is called exactly
/// once for it; the response handler is called once if the outbound client
/// returned a response and never otherwise; the error handler is called once
/// if the outbound client returned an error and never otherwise; and the
/// request is done exactly when the client has been answered.
pub proof fn law_calls_per_request(signals: Seq<Signal>)
    requires
        progress(signals) is Some,
    ensures
        accounted(signals, progress(signals)->0),
    decreases signals.len(),
{
    reveal_with_fuel(occurrences, 2);
    if signals.len() > 0 {
        let before = signals.drop_last();
        law_calls_per_request(before);
        lemma_contains_last(signals, Signal::UpstreamReplied);
        lemma_contains_last(signals, Signal::UpstreamFailed);
        let reached = progress(signals)->0;
        assert(reached.commands.drop_last() =~= progress(before)->0.commands);
    }
}

/// Until the client has its answer the dispatcher has a next step for
/// whatever comes back: for either answer of the request handler and every
/// route, for the response of the bridge, for success and failure of the
/// outbound client, and for the return of the response and error handlers.
pub proof fn law_dispatcher_always_answers(kind: RouteKind)
    ensures
        next(Phase::HandlingRequest, Signal::Responded) is Some,
        next(Phase::HandlingRequest, Signal::Routed { kind }) is Some,
        next(Phase::Bridging, Signal::BridgeAnswered) is Some,
        next(Phase::Forwarding, Signal::UpstreamReplied) is Some,
        next(Phase::Forwarding, Signal::UpstreamFailed) is Some,
        next(Phase::HandlingResponse, Signal::Handled) is Some,
        next(Phase::HandlingError, Signal::Handled) is Some,
{
}

/// As long as the client waits for its answer, a handler or an outbound
/// client that does not come back ends the request with status 400, and with
/// nothing else.
pub proof fn law_failures_are_answered(phase: Phase)
    requires
        phase != Phase::Done,
    ensures
        next(phase, Signal::Failed) == Some(
            (Phase::Done, Command::Excuse { response: ShellResponse { status: 400 } }),
        ),
{
}

/// The request handler is called before anything else. The outbound client
/// is called only straight after it, and the response handler and the error
/// handler are called only straight after the outbound client.
pub proof fn law_calls_in_order(signals: Seq<Signal>, at: int)
    requires
        progress(signals) is Some,
        0 <= at < progress(signals)->0.commands.len(),
    ensures
        progress(signals)->0.commands[0] == Command::CallRequestHandler,
        progress(signals)->0.commands[at] == Command::CallRequestHandler ==> at == 0,
        progress(signals)->0.commands[at] == Command::SendUpstream ==> at == 1,
        progress(signals)->0.commands[at] == Command::CallResponseHandler
            || progress(signals)->0.commands[at] == Command::CallErrorHandler ==> at == 2
            && progress(signals)->0.commands[1] == Command::SendUpstream,
    decreases signals.len(),
{
    law_calls_per_request(signals);
    if signals.len() > 0 {
        let before = signals.drop_last();
        law_calls_per_request(before);
        if at < progress(before)->0.commands.len() {
            law_calls_in_order(before, at);
        } else {
            law_calls_in_order(before, 0);
            if before.len() > 0 {
                law_calls_in_order(before, before.len() as int);
            }
        }
    }
}

/// How often `wanted` was given over a row of transactions.
pub open spec fn total(transactions: Seq<Seq<Signal>>, wanted: Command) -> nat
    decreases transactions.len(),
{
    if transactions.len() == 0 {
        0
    } else {
        total(transactions.drop_last(), wanted) + match progress(transactions.last()) {
            Some(reached) => occurrences(reached.commands, wanted),
            None => 0,
        }
    }
}

/// How many of the transactions hold `signal`.
pub open spec fn holding(transactions: Seq<Seq<Signal>>, signal: Signal) -> nat
    decreases transactions.len(),
{
    if transactions.len() == 0 {
        0
    } else {
        holding(transactions.drop_last(), signal) + one_if(transactions.last().contains(signal))
    }
}

/// Over any row of transactions, the request handler is called once for each
/// of them, the response handler once for each in which the outbound client
/// returned a response, and the error handler once for each in which it
/// returned an error.
pub proof fn law_handler_call_counts(transactions: Seq<Seq<Signal>>)
    requires
        forall|i: int| 0 <= i < transactions.len() ==> is_transaction(#[trigger] transactions[i]),
    ensures
        total(transactions, Command::CallRequestHandler) == transactions.len(),
        total(transactions, Command::CallResponseHandler) == holding(
            transactions,
            Signal::UpstreamReplied,
        ),
        total(transactions, Command::CallErrorHandler) == holding(
            transactions,
            Signal::UpstreamFailed,
        ),
    decreases transactions.len(),
{
    if transactions.len() > 0 {
        law_handler_call_counts(transactions.drop_last());
        law_calls_per_request(transactions.last());
    }
}

/// Over any number of transactions in each of which the outbound client
/// returned a response, the request handler and the response handler are
/// called once for each, and the error handler never. Over any number in each
/// of which the outbound client returned an error, the request handler and
/// the error handler are called once for each, and the response handler
/// never.
pub proof fn law_calls_match_outcomes(transactions: Seq<Seq<Signal>>, outcome: Signal)
    requires
        outcome == Signal::UpstreamReplied || outcome == Signal::UpstreamFailed,
        forall|i: int|
            0 <= i < transactions.len() ==> is_transaction(#[trigger] transactions[i])
                && transactions[i].contains(outcome),
    ensures
        total(transactions, Command::CallRequestHandler) == transactions.len(),
        total(transactions, Command::CallResponseHandler) == if outcome
            == Signal::UpstreamReplied {
            transactions.len()
        } else {
            0
        },
        total(transactions, Command::CallErrorHandler) == if outcome == Signal::UpstreamFailed {
            transactions.len()
        } else {
            0
        },
    decreases transactions.len(),
{
    law_handler_call_counts(transactions);
    if transactions.len() > 0 {
        law_calls_match_outcomes(transactions.drop_last(), outcome);
        law_handler_call_counts(transactions.drop_last());
        law_calls_per_request(transactions.last());
    }
}

/// A request that is forwarded and answered by the origin is a transaction
/// in which the outbound client returned a response, and one that is
/// forwarded and fails is one in which it returned an error.
pub proof fn law_forwarded_transactions()
    ensures
        is_transaction(
            seq![
                Signal::Routed { kind: RouteKind::Forward },
                Signal::UpstreamReplied,
                Signal::Handled,
            ],
        ),
        is_transaction(
            seq![
                Signal::Routed { kind: RouteKind::Forward },
                Signal::UpstreamFailed,
                Signal::Handled,
            ],
        ),
{
    reveal_with_fuel(progress, 4);
}

} // verus!
