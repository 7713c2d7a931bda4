//! The parts of a request URI, and the rewrites that the proxy applies to them.

use vstd::prelude::*;

verus! {

/// The scheme of a URI.
#[derive(Clone, Debug, PartialEq, Eq)]
pub enum Scheme {
    /// `http`
    Http,
    /// `https`
    Https,
    /// `ws`
    Ws,
    /// `wss`
    Wss,
    /// Any other scheme, by its text.
    Other(Vec<u8>),
}

/// A URI taken apart. The authority and the path with its query are kept as
/// the text that stood on the wire.
#[derive(Clone, Debug, PartialEq, Eq)]
pub struct UriParts {
    /// The scheme, if the URI names one.
    pub scheme: Option<Scheme>,
    /// `host[:port]`, if the URI names one.
    pub authority: Option<Vec<u8>>,
    /// The path and the query, if the URI has any.
    pub path_and_query: Option<Vec<u8>>,
}

/// A scheme with its text read as plain bytes.
pub enum SchemeModel {
    /// `http`
    Http,
    /// `https`
    Https,
    /// `ws`
    Ws,
    /// `wss`
    Wss,
    /// Any other scheme, by its text.
    Other(Seq<u8>),
}

/// The parts of a URI with their text read as plain bytes.
pub struct UriModel {
    /// The scheme, if the URI names one.
    pub scheme: Option<SchemeModel>,
    /// `host[:port]`, if the URI names one.
    pub authority: Option<Seq<u8>>,
    /// The path and the query, if the URI has any.
    pub path_and_query: Option<Seq<u8>>,
}

impl View for Scheme {
    type V = SchemeModel;

    open spec fn view(&self) -> SchemeModel {
        match *self {
            Scheme::Http => SchemeModel::Http,
            Scheme::Https => SchemeModel::Https,
            Scheme::Ws => SchemeModel::Ws,
            Scheme::Wss => SchemeModel::Wss,
            Scheme::Other(text) => SchemeModel::Other(text@),
        }
    }
}

/// The bytes of a text that may be absent.
pub open spec fn text_of(text: Option<Vec<u8>>) -> Option<Seq<u8>> {
    match text {
        Some(text) => Some(text@),
        None => None,
    }
}

impl View for UriParts {
    type V = UriModel;

    open spec fn view(&self) -> UriModel {
        UriModel {
            scheme: match self.scheme {
                Some(scheme) => Some(scheme@),
                None => None,
            },
            authority: text_of(self.authority),
            path_and_query: text_of(self.path_and_query),
        }
    }
}

/// Why three parts do not make a URI.
#[derive(Clone, Copy, Debug, PartialEq, Eq, Structural)]
pub enum UriError {
    /// There is an authority and a path, but no scheme.
    SchemeMissing,
    /// There is a scheme, but no authority.
    AuthorityMissing,
    /// There is a scheme and an authority, but no path.
    PathAndQueryMissing,
}

/// The protocol version of a request.
#[derive(Clone, Copy, Debug, PartialEq, Eq, Structural)]
pub enum Version {
    /// HTTP/0.9
    Http09,
    /// HTTP/1.0
    Http10,
    /// HTTP/1.1
    Http11,
    /// HTTP/2
    H2,
    /// HTTP/3
    H3,
}

impl Version {
    /// Versions whose requests name their target in origin form: a path without
    /// scheme and authority.
    pub open spec fn is_http1(self) -> bool {
        self == Version::Http10 || self == Version::Http11
    }
}

/// What is wrong with three parts taken as a URI, if anything: a scheme needs
/// an authority and a path, and an authority with a path needs a scheme.
pub open spec fn defect(
    has_scheme: bool,
    has_authority: bool,
    has_path_and_query: bool,
) -> Option<UriError> {
    if has_scheme {
        if !has_authority {
            Some(UriError::AuthorityMissing)
        } else if !has_path_and_query {
            Some(UriError::PathAndQueryMissing)
        } else {
            None
        }
    } else if has_authority && has_path_and_query {
        Some(UriError::SchemeMissing)
    } else {
        None
    }
}

/// The WebSocket scheme that stands for `scheme`: `ws` for plain HTTP, `wss`
/// for everything else.
pub open spec fn websocket_scheme(scheme: Scheme) -> Scheme {
    if scheme == Scheme::Http {
        Scheme::Ws
    } else {
        Scheme::Wss
    }
}

/// A copy of a text that may be absent.
pub fn copy_text(text: &Option<Vec<u8>>) -> (copy: Option<Vec<u8>>)
    ensures
        text_of(copy) == text_of(*text),
{
    match text {
        Some(text) => Some(text.clone()),
        None => None,
    }
}

impl Scheme {
    /// A copy of the scheme.
    pub fn copy(&self) -> (copy: Scheme)
        ensures
            copy@ == self@,
    {
        match self {
            Scheme::Http => Scheme::Http,
            Scheme::Https => Scheme::Https,
            Scheme::Ws => Scheme::Ws,
            Scheme::Wss => Scheme::Wss,
            Scheme::Other(text) => Scheme::Other(text.clone()),
        }
    }
}

impl UriParts {
    /// A copy of the parts.
    pub fn copy(&self) -> (copy: UriParts)
        ensures
            copy@ == self@,
    {
        UriParts {
            scheme: match &self.scheme {
                Some(scheme) => Some(scheme.copy()),
                None => None,
            },
            authority: copy_text(&self.authority),
            path_and_query: copy_text(&self.path_and_query),
        }
    }

    /// The URI to dial for an upgrade request with this target: `http`
    /// becomes `ws`, any other scheme becomes `wss`, and the rest stays. A
    /// target without a scheme has none, and neither has one that does not
    /// make a URI.
    pub open spec fn websocket_target(self) -> Result<UriParts, UriError> {
        match self.scheme {
            None => Err(UriError::SchemeMissing),
            Some(scheme) => match self.defect() {
                Some(error) => Err(error),
                None => Ok(self.with_scheme(websocket_scheme(scheme))),
            },
        }
    }

    /// The target of a request that arrived inside a tunnel, made absolute.
    pub open spec fn absolute_target(
        self,
        version: Version,
        scheme: Scheme,
        authority: Vec<u8>,
    ) -> Result<UriParts, UriError> {
        if version.is_http1() {
            if self.path_and_query is Some {
                Ok(self.with_origin(scheme, authority))
            } else {
                Err(UriError::PathAndQueryMissing)
            }
        } else {
            Ok(self)
        }
    }

    /// What keeps these parts from making a URI, if anything.
    pub open spec fn defect(self) -> Option<UriError> {
        defect(self.scheme is Some, self.authority is Some, self.path_and_query is Some)
    }

    /// The parts make a URI.
    pub open spec fn well_formed(self) -> bool {
        self.defect() is None
    }

    /// The parts with another scheme.
    pub open spec fn with_scheme(self, scheme: Scheme) -> UriParts {
        UriParts {
            scheme: Some(scheme),
            authority: self.authority,
            path_and_query: self.path_and_query,
        }
    }

    /// The parts with another scheme and another authority.
    pub open spec fn with_origin(self, scheme: Scheme, authority: Vec<u8>) -> UriParts {
        UriParts {
            scheme: Some(scheme),
            authority: Some(authority),
            path_and_query: self.path_and_query,
        }
    }

    /// Tells whether the parts make a URI, and if not, why.
    pub fn check(&self) -> (outcome: Result<(), UriError>)
        ensures
            outcome == match self.defect() {
                Some(error) => Err::<(), UriError>(error),
                None => Ok(()),
            },
    {
        if self.scheme.is_some() {
            if self.authority.is_none() {
                Err(UriError::AuthorityMissing)
            } else if self.path_and_query.is_none() {
                Err(UriError::PathAndQueryMissing)
            } else {
                Ok(())
            }
        } else if self.authority.is_some() && self.path_and_query.is_some() {
            Err(UriError::SchemeMissing)
        } else {
            Ok(())
        }
    }

    /// Turns the target of an upgrade request into the URI to dial: `http`
    /// becomes `ws`, any other scheme becomes `wss`, and the rest stays.
    ///
    /// A target without a scheme is refused, and so is one that does not make a
    /// URI under its new scheme.
    pub fn into_websocket(self) -> (outcome: Result<UriParts, UriError>)
        ensures
            outcome == self.websocket_target(),
    {
        let UriParts { scheme, authority, path_and_query } = self;
        let scheme = match scheme {
            None => {
                return Err(UriError::SchemeMissing);
            },
            Some(Scheme::Http) => Scheme::Ws,
            Some(_) => Scheme::Wss,
        };
        let rewritten = UriParts { scheme: Some(scheme), authority, path_and_query };
        match rewritten.check() {
            Ok(()) => Ok(rewritten),
            Err(error) => Err(error),
        }
    }

    /// Makes the target of a request that arrived inside a tunnel absolute.
    ///
    /// An HTTP/1 request names only a path there, so the scheme and the
    /// authority of the tunnel are put in front; the outcome is an error where
    /// no path is left to put them in front of. A request of another version
    /// carries its full URI already and is left as it is.
    pub fn into_absolute(self, version: Version, scheme: Scheme, authority: Vec<u8>) -> (outcome:
        Result<UriParts, UriError>)
        ensures
            outcome == self.absolute_target(version, scheme, authority),
    {
        match version {
            Version::Http10 | Version::Http11 => {
                let rewritten = UriParts {
                    scheme: Some(scheme),
                    authority: Some(authority),
                    path_and_query: self.path_and_query,
                };
                match rewritten.check() {
                    Ok(()) => Ok(rewritten),
                    Err(error) => Err(error),
                }
            },
            _ => Ok(self),
        }
    }
}

} // verus!
