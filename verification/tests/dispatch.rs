use http::header::{
    HeaderMap, HeaderValue, CONNECTION, COOKIE, HOST, SEC_WEBSOCKET_KEY, SEC_WEBSOCKET_VERSION,
    UPGRADE,
};
use http::{Request, StatusCode};
use hudsucker::dispatch::{
    advance, forward, route_known, route_request, start, Command, Dispatch, Phase, RouteKind,
    Signal,
};
use hudsucker::headers::MAX_FIELD_NAMES;
use hudsucker::request::{Method, RequestHead};
use hudsucker::response::{bad_request, established};
use hudsucker::serve::absolute_request;
use hudsucker::tunnel::Served;
use hudsucker::uri::{Scheme, UriError, UriParts, Version};

fn head_of<T>(request: Request<T>) -> RequestHead {
    let (parts, _) = request.into_parts();
    let uri = parts.uri.into_parts();
    RequestHead {
        method: match parts.method.as_str() {
            "GET" => Method::Get,
            "POST" => Method::Post,
            "CONNECT" => Method::Connect,
            other => Method::Extension(other.as_bytes().to_vec()),
        },
        uri: UriParts {
            scheme: uri.scheme.map(|scheme| match scheme.as_str() {
                "http" => Scheme::Http,
                "https" => Scheme::Https,
                other => Scheme::Other(other.as_bytes().to_vec()),
            }),
            authority: uri.authority.map(|authority| authority.as_str().as_bytes().to_vec()),
            path_and_query: uri.path_and_query.map(|path| path.as_str().as_bytes().to_vec()),
        },
        version: if parts.version == http::Version::HTTP_2 { Version::H2 } else { Version::Http11 },
        headers: parts.headers,
    }
}

fn transaction(signals: &[Signal]) -> Vec<Command> {
    let (mut phase, first) = start();
    let mut commands = vec![first];
    for signal in signals {
        let (next, command) = advance(phase, *signal).expect("the signal fits the phase");
        phase = next;
        commands.push(command);
    }
    assert_eq!(phase, Phase::Done);
    commands
}

fn count(commands: &[Command], wanted: Command) -> usize {
    commands.iter().filter(|command| **command == wanted).count()
}

#[test]
fn forwards_a_plain_get() {
    let request = head_of(
        Request::builder()
            .uri("http://127.0.0.1:3000/hello")
            .header(HOST, "127.0.0.1:3000")
            .body(())
            .unwrap(),
    );

    let dispatch = route_request(request);

    assert_eq!(dispatch.kind(), RouteKind::Forward);
    assert_eq!(
        dispatch,
        Dispatch::Forward {
            request: RequestHead {
                method: Method::Get,
                uri: UriParts {
                    scheme: Some(Scheme::Http),
                    authority: Some(b"127.0.0.1:3000".to_vec()),
                    path_and_query: Some(b"/hello".to_vec()),
                },
                version: Version::Http11,
                headers: HeaderMap::new(),
            }
        }
    );
    assert_eq!(
        transaction(&[
            Signal::Routed { kind: dispatch.kind() },
            Signal::UpstreamReplied,
            Signal::Handled
        ]),
        vec![
            Command::CallRequestHandler,
            Command::SendUpstream,
            Command::CallResponseHandler,
            Command::ReturnHandled
        ]
    );
}

#[test]
fn forwards_http2_requests_as_http11() {
    let request = head_of(
        Request::builder()
            .method("POST")
            .version(http::Version::HTTP_2)
            .uri("https://example.com/echo")
            .header(COOKIE, "a=1")
            .header(COOKIE, "b=2")
            .body(())
            .unwrap(),
    );

    match route_request(request) {
        Dispatch::Forward { request } => {
            assert_eq!(request.version, Version::Http11);
            assert_eq!(request.method, Method::Post);
            assert_eq!(request.headers.get(COOKIE), Some(&HeaderValue::from_static("a=1; b=2")));
            assert_eq!(request.headers.len(), 1);
        }
        other => panic!("unexpected dispatch {:?}", other),
    }
}

#[test]
fn opens_a_tunnel_for_connect() {
    let request = head_of(
        Request::builder()
            .method("CONNECT")
            .uri("example.com:443")
            .header(HOST, "example.com:443")
            .body(())
            .unwrap(),
    );
    let shown = head_of(
        Request::builder()
            .method("CONNECT")
            .uri("example.com:443")
            .header(HOST, "example.com:443")
            .body(())
            .unwrap(),
    );

    let dispatch = route_request(request);

    assert_eq!(dispatch.kind(), RouteKind::Tunnel);
    assert_eq!(
        dispatch,
        Dispatch::Tunnel {
            authority: b"example.com:443".to_vec(),
            request: shown,
            response: established()
        }
    );
    assert_eq!(
        transaction(&[Signal::Routed { kind: RouteKind::Tunnel }]),
        vec![Command::CallRequestHandler, Command::OpenTunnel]
    );
}

#[test]
fn refuses_connect_without_authority() {
    let mut request = head_of(Request::builder().uri("/foo/bar?baz").body(()).unwrap());
    request.method = Method::Connect;

    let dispatch = route_request(request);

    assert_eq!(dispatch, Dispatch::Refuse { response: bad_request() });
    assert_eq!(dispatch.kind(), RouteKind::Refuse);
    assert_eq!(
        transaction(&[Signal::Routed { kind: RouteKind::Refuse }]),
        vec![Command::CallRequestHandler, Command::Refuse]
    );
}

#[test]
fn connect_wins_over_upgrade() {
    let request = head_of(
        Request::builder()
            .method("CONNECT")
            .uri("example.com:80")
            .header(CONNECTION, "Upgrade")
            .header(UPGRADE, "websocket")
            .body(())
            .unwrap(),
    );

    assert_eq!(route_request(request).kind(), RouteKind::Tunnel);
}

#[test]
fn bridges_an_upgrade_request() {
    let request = head_of(
        Request::builder()
            .uri("http://example.com/chat")
            .header(HOST, "example.com")
            .header(CONNECTION, "Upgrade")
            .header(UPGRADE, "websocket")
            .header(SEC_WEBSOCKET_VERSION, "13")
            .header(SEC_WEBSOCKET_KEY, "dGhlIHNhbXBsZSBub25jZQ==")
            .body(())
            .unwrap(),
    );

    match route_request(request) {
        Dispatch::Bridge { request } => {
            assert_eq!(request.uri.scheme, Some(Scheme::Ws));
            assert_eq!(request.uri.authority, Some(b"example.com".to_vec()));
            assert_eq!(request.headers.get(HOST), Some(&HeaderValue::from_static("example.com")));
            assert_eq!(request.headers.len(), 5);
        }
        other => panic!("unexpected dispatch {:?}", other),
    }
    assert_eq!(
        transaction(&[Signal::Routed { kind: RouteKind::Bridge }, Signal::BridgeAnswered]),
        vec![Command::CallRequestHandler, Command::OpenBridge, Command::ReturnBridgeResponse]
    );
}

#[test]
fn refuses_an_upgrade_request_without_key() {
    let request = head_of(
        Request::builder()
            .uri("http://example.com/chat")
            .header(CONNECTION, "Upgrade")
            .header(UPGRADE, "websocket")
            .body(())
            .unwrap(),
    );

    let dispatch = route_request(request);

    assert_eq!(dispatch, Dispatch::Refuse { response: bad_request() });
    match dispatch {
        Dispatch::Refuse { response } => {
            assert_eq!(StatusCode::from_u16(response.status()).unwrap(), StatusCode::BAD_REQUEST)
        }
        other => panic!("unexpected dispatch {:?}", other),
    }
}

#[test]
fn refuses_an_upgrade_request_in_origin_form() {
    let request = head_of(
        Request::builder()
            .uri("/chat")
            .header(CONNECTION, "Upgrade")
            .header(UPGRADE, "websocket")
            .header(SEC_WEBSOCKET_VERSION, "13")
            .header(SEC_WEBSOCKET_KEY, "dGhlIHNhbXBsZSBub25jZQ==")
            .body(())
            .unwrap(),
    );

    assert_eq!(route_request(request), Dispatch::Refuse { response: bad_request() });
}

#[test]
fn routes_by_what_is_known_of_the_request() {
    let plain = || head_of(Request::builder().uri("http://example.com/chat").body(()).unwrap());
    let handshake = || {
        head_of(
            Request::builder()
                .uri("https://example.com/chat")
                .header(SEC_WEBSOCKET_VERSION, "13")
                .header(SEC_WEBSOCKET_KEY, "dGhlIHNhbXBsZSBub25jZQ==")
                .body(())
                .unwrap(),
        )
    };
    let connect = || {
        head_of(Request::builder().method("CONNECT").uri("example.com:443").body(()).unwrap())
    };

    assert_eq!(route_known(plain(), false).kind(), RouteKind::Forward);
    assert_eq!(route_known(plain(), true), Dispatch::Refuse { response: bad_request() });
    assert_eq!(route_known(handshake(), false).kind(), RouteKind::Forward);
    match route_known(handshake(), true) {
        Dispatch::Bridge { request } => assert_eq!(request.uri.scheme, Some(Scheme::Wss)),
        other => panic!("unexpected dispatch {:?}", other),
    }
    assert_eq!(route_known(connect(), false).kind(), RouteKind::Tunnel);
    assert_eq!(route_known(connect(), true).kind(), RouteKind::Tunnel);
}

fn many_names(count: usize) -> HeaderMap {
    let mut headers = HeaderMap::new();
    for i in 0..count {
        headers.append(
            http::header::HeaderName::from_bytes(format!("x-{}", i).as_bytes()).unwrap(),
            HeaderValue::from_static("v"),
        );
    }
    headers
}

fn get_with(headers: HeaderMap) -> RequestHead {
    RequestHead {
        method: Method::Get,
        uri: UriParts {
            scheme: Some(Scheme::Http),
            authority: Some(b"example.com".to_vec()),
            path_and_query: Some(b"/".to_vec()),
        },
        version: Version::Http11,
        headers,
    }
}

#[test]
fn forwards_a_request_with_very_many_names() {
    let mut headers = many_names(MAX_FIELD_NAMES + 1);
    headers.append(COOKIE, HeaderValue::from_static("a=1"));
    headers.append(COOKIE, HeaderValue::from_static("b=2"));
    headers.append(HOST, HeaderValue::from_static("example.com"));

    match route_request(get_with(headers)) {
        Dispatch::Forward { request } => {
            assert_eq!(request.headers.keys_len(), MAX_FIELD_NAMES + 2);
            assert_eq!(request.headers.get(HOST), None);
            assert_eq!(request.headers.get(COOKIE), Some(&HeaderValue::from_static("a=1; b=2")));
        }
        other => panic!("unexpected dispatch {:?}", other.kind()),
    }
}

#[test]
fn forwards_a_full_map_without_cookies() {
    let headers = many_names(24576);

    match route_request(get_with(headers)) {
        Dispatch::Forward { request } => assert_eq!(request.headers.keys_len(), 24576),
        other => panic!("unexpected dispatch {:?}", other.kind()),
    }
}

#[test]
fn refuses_cookies_that_a_full_map_does_not_take() {
    let mut headers = many_names(24574);
    headers.append(COOKIE, HeaderValue::from_static("a=1"));
    headers.append(COOKIE, HeaderValue::from_static("b=2"));
    headers.append("x-last", HeaderValue::from_static("v"));
    assert_eq!(headers.keys_len(), 24576);

    assert_eq!(route_request(get_with(headers)), Dispatch::Refuse { response: bad_request() });
}

#[test]
fn forwards_what_has_a_normal_form() {
    let request = get_with(HeaderMap::new());
    let same = get_with(HeaderMap::new());

    assert_eq!(forward(Some(request)), Dispatch::Forward { request: same });
    assert_eq!(forward(None), Dispatch::Refuse { response: bad_request() });
}

#[test]
fn answers_bad_request_when_a_handler_does_not_come_back() {
    for phase in [
        Phase::HandlingRequest,
        Phase::Bridging,
        Phase::Forwarding,
        Phase::HandlingResponse,
        Phase::HandlingError,
    ] {
        assert_eq!(
            advance(phase, Signal::Failed),
            Some((Phase::Done, Command::Excuse { response: bad_request() }))
        );
    }
    assert_eq!(advance(Phase::Done, Signal::Failed), None);
}

#[test]
fn a_failing_response_handler_is_still_counted_as_called() {
    let commands = transaction(&[
        Signal::Routed { kind: RouteKind::Forward },
        Signal::UpstreamReplied,
        Signal::Failed,
    ]);

    assert_eq!(
        commands,
        vec![
            Command::CallRequestHandler,
            Command::SendUpstream,
            Command::CallResponseHandler,
            Command::Excuse { response: bad_request() }
        ]
    );
    assert_eq!(
        transaction(&[Signal::Failed]),
        vec![Command::CallRequestHandler, Command::Excuse { response: bad_request() }]
    );
}

#[test]
fn short_circuit_skips_the_outbound_client() {
    let commands = transaction(&[Signal::Responded]);

    assert_eq!(commands, vec![Command::CallRequestHandler, Command::ReturnHandlerResponse]);
    assert_eq!(count(&commands, Command::SendUpstream), 0);
    assert_eq!(count(&commands, Command::CallResponseHandler), 0);
    assert_eq!(count(&commands, Command::CallErrorHandler), 0);
}

#[test]
fn transport_failure_goes_to_the_error_handler() {
    let commands = transaction(&[
        Signal::Routed { kind: RouteKind::Forward },
        Signal::UpstreamFailed,
        Signal::Handled,
    ]);

    assert_eq!(
        commands,
        vec![
            Command::CallRequestHandler,
            Command::SendUpstream,
            Command::CallErrorHandler,
            Command::ReturnHandled
        ]
    );
}

#[test]
fn handlers_are_called_once_per_transaction() {
    let mut commands = Vec::new();
    for _ in 0..7 {
        commands.extend(transaction(&[
            Signal::Routed { kind: RouteKind::Forward },
            Signal::UpstreamReplied,
            Signal::Handled,
        ]));
    }
    for _ in 0..3 {
        commands.extend(transaction(&[
            Signal::Routed { kind: RouteKind::Forward },
            Signal::UpstreamFailed,
            Signal::Handled,
        ]));
    }

    assert_eq!(count(&commands, Command::CallRequestHandler), 10);
    assert_eq!(count(&commands, Command::CallResponseHandler), 7);
    assert_eq!(count(&commands, Command::CallErrorHandler), 3);
    assert_eq!(count(&commands, Command::SendUpstream), 10);
    assert_eq!(count(&commands, Command::ReturnHandled), 10);
}

#[test]
fn signals_out_of_turn_are_refused() {
    assert_eq!(advance(Phase::HandlingRequest, Signal::UpstreamReplied), None);
    assert_eq!(advance(Phase::HandlingRequest, Signal::Handled), None);
    assert_eq!(advance(Phase::Forwarding, Signal::Responded), None);
    assert_eq!(advance(Phase::Forwarding, Signal::Handled), None);
    assert_eq!(advance(Phase::Bridging, Signal::UpstreamReplied), None);
    assert_eq!(advance(Phase::HandlingResponse, Signal::UpstreamFailed), None);
    assert_eq!(advance(Phase::HandlingError, Signal::UpstreamReplied), None);
    for signal in [
        Signal::Responded,
        Signal::Routed { kind: RouteKind::Forward },
        Signal::BridgeAnswered,
        Signal::UpstreamReplied,
        Signal::UpstreamFailed,
        Signal::Handled,
        Signal::Failed,
    ] {
        assert_eq!(advance(Phase::Done, signal), None);
    }
}

#[test]
fn a_post_through_an_intercepted_tunnel_is_forwarded_absolute() {
    let inner = head_of(
        Request::builder()
            .method("POST")
            .uri("/echo")
            .header(HOST, "example.com")
            .body(())
            .unwrap(),
    );

    let absolute = absolute_request(inner, Served::Https, b"example.com:443".to_vec()).unwrap();
    let dispatch = route_request(absolute);

    assert_eq!(
        dispatch,
        Dispatch::Forward {
            request: RequestHead {
                method: Method::Post,
                uri: UriParts {
                    scheme: Some(Scheme::Https),
                    authority: Some(b"example.com:443".to_vec()),
                    path_and_query: Some(b"/echo".to_vec()),
                },
                version: Version::Http11,
                headers: HeaderMap::new(),
            }
        }
    );
}

#[test]
fn a_plain_request_through_a_tunnel_gets_the_http_scheme() {
    let inner = head_of(Request::builder().uri("/chat").body(()).unwrap());

    let absolute = absolute_request(inner, Served::Http, b"example.com:80".to_vec()).unwrap();

    assert_eq!(
        absolute.uri,
        UriParts {
            scheme: Some(Scheme::Http),
            authority: Some(b"example.com:80".to_vec()),
            path_and_query: Some(b"/chat".to_vec()),
        }
    );
    assert_eq!(absolute.method, Method::Get);
}

#[test]
fn a_tunnelled_request_without_path_is_an_error() {
    let mut inner = head_of(Request::builder().uri("example.com:443").body(()).unwrap());
    inner.method = Method::Connect;

    assert_eq!(
        absolute_request(inner, Served::Https, b"example.com:443".to_vec()),
        Err(UriError::PathAndQueryMissing)
    );
}

#[test]
fn a_tunnelled_http2_request_passes_as_it_is() {
    let inner = head_of(
        Request::builder()
            .version(http::Version::HTTP_2)
            .uri("https://other.example/x")
            .body(())
            .unwrap(),
    );

    let passed = absolute_request(inner, Served::Https, b"example.com:443".to_vec()).unwrap();

    assert_eq!(
        passed.uri,
        UriParts {
            scheme: Some(Scheme::Https),
            authority: Some(b"other.example".to_vec()),
            path_and_query: Some(b"/x".to_vec()),
        }
    );
    assert_eq!(passed.version, Version::H2);
}
