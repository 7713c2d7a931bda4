use http::uri::{Authority, Parts, PathAndQuery, Uri};
use hudsucker::uri::{Scheme, UriError, UriParts, Version};

fn parts(scheme: Option<Scheme>, authority: Option<&str>, path: Option<&str>) -> UriParts {
    UriParts {
        scheme,
        authority: authority.map(|text| text.as_bytes().to_vec()),
        path_and_query: path.map(|text| text.as_bytes().to_vec()),
    }
}

#[test]
fn check_agrees_with_the_uri_type() {
    for has_scheme in [false, true] {
        for has_authority in [false, true] {
            for has_path in [false, true] {
                let mut outside = Parts::default();
                if has_scheme {
                    outside.scheme = Some(http::uri::Scheme::HTTPS);
                }
                if has_authority {
                    outside.authority = Some(Authority::from_static("example.com:443"));
                }
                if has_path {
                    outside.path_and_query = Some(PathAndQuery::from_static("/a?b"));
                }
                let ours = parts(
                    if has_scheme { Some(Scheme::Https) } else { None },
                    if has_authority { Some("example.com:443") } else { None },
                    if has_path { Some("/a?b") } else { None },
                );
                assert_eq!(
                    ours.check().is_ok(),
                    Uri::from_parts(outside).is_ok(),
                    "scheme {} authority {} path {}",
                    has_scheme,
                    has_authority,
                    has_path
                );
            }
        }
    }
}

#[test]
fn check_names_what_is_missing() {
    assert_eq!(
        parts(None, Some("example.com"), Some("/")).check(),
        Err(UriError::SchemeMissing)
    );
    assert_eq!(
        parts(Some(Scheme::Http), None, Some("/")).check(),
        Err(UriError::AuthorityMissing)
    );
    assert_eq!(
        parts(Some(Scheme::Http), None, None).check(),
        Err(UriError::AuthorityMissing)
    );
    assert_eq!(
        parts(Some(Scheme::Http), Some("example.com"), None).check(),
        Err(UriError::PathAndQueryMissing)
    );
    assert_eq!(parts(Some(Scheme::Http), Some("example.com"), Some("/")).check(), Ok(()));
    assert_eq!(parts(None, None, Some("/foo/bar?baz")).check(), Ok(()));
    assert_eq!(parts(None, Some("example.com:443"), None).check(), Ok(()));
    assert_eq!(parts(None, None, None).check(), Ok(()));
}

#[test]
fn http_becomes_ws() {
    assert_eq!(
        parts(Some(Scheme::Http), Some("example.com"), Some("/chat")).into_websocket(),
        Ok(parts(Some(Scheme::Ws), Some("example.com"), Some("/chat")))
    );
}

#[test]
fn every_other_scheme_becomes_wss() {
    for scheme in [Scheme::Https, Scheme::Ws, Scheme::Wss, Scheme::Other(b"ftp".to_vec())] {
        assert_eq!(
            parts(Some(scheme), Some("example.com"), Some("/chat")).into_websocket(),
            Ok(parts(Some(Scheme::Wss), Some("example.com"), Some("/chat")))
        );
    }
}

#[test]
fn websocket_target_needs_all_three_parts() {
    assert_eq!(
        parts(None, None, Some("/foo/bar?baz")).into_websocket(),
        Err(UriError::SchemeMissing)
    );
    assert_eq!(
        parts(None, Some("example.com"), Some("/")).into_websocket(),
        Err(UriError::SchemeMissing)
    );
    assert_eq!(
        parts(Some(Scheme::Http), None, Some("/")).into_websocket(),
        Err(UriError::AuthorityMissing)
    );
    assert_eq!(
        parts(Some(Scheme::Https), Some("example.com"), None).into_websocket(),
        Err(UriError::PathAndQueryMissing)
    );
}

#[test]
fn http1_targets_become_absolute() {
    for version in [Version::Http10, Version::Http11] {
        assert_eq!(
            parts(None, None, Some("/echo?x=1")).into_absolute(
                version,
                Scheme::Https,
                b"example.com:443".to_vec()
            ),
            Ok(parts(Some(Scheme::Https), Some("example.com:443"), Some("/echo?x=1")))
        );
    }
}

#[test]
fn http1_targets_lose_their_own_origin() {
    assert_eq!(
        parts(Some(Scheme::Http), Some("other.example"), Some("/")).into_absolute(
            Version::Http11,
            Scheme::Https,
            b"example.com:443".to_vec()
        ),
        Ok(parts(Some(Scheme::Https), Some("example.com:443"), Some("/")))
    );
}

#[test]
fn http1_targets_need_a_path() {
    assert_eq!(
        parts(None, Some("example.com:443"), None).into_absolute(
            Version::Http11,
            Scheme::Https,
            b"example.com:443".to_vec()
        ),
        Err(UriError::PathAndQueryMissing)
    );
}

#[test]
fn other_versions_keep_their_target() {
    for version in [Version::Http09, Version::H2, Version::H3] {
        assert_eq!(
            parts(Some(Scheme::Http), Some("other.example"), Some("/x")).into_absolute(
                version,
                Scheme::Https,
                b"example.com:443".to_vec()
            ),
            Ok(parts(Some(Scheme::Http), Some("other.example"), Some("/x")))
        );
        assert_eq!(
            parts(None, Some("example.com:443"), None).into_absolute(
                version,
                Scheme::Https,
                b"example.com:443".to_vec()
            ),
            Ok(parts(None, Some("example.com:443"), None))
        );
    }
}

#[test]
fn copies_are_equal() {
    let source = parts(Some(Scheme::Other(b"gopher".to_vec())), Some("example.com"), Some("/"));
    assert_eq!(source.copy(), source);
    assert_eq!(Scheme::Wss.copy(), Scheme::Wss);
}
