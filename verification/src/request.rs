//! The head of a request as the proxy sees it, and its normal form for the
//! forwarding leg.

use crate::headers::{
    cookie_name, cookie_separator, fields, has_room, host_name, joined_with,
    lemma_host_is_not_cookie, normalize_fields, normalized_fields, Fields,
};
use crate::uri::{UriModel, UriParts, Version};
use http::header::{HeaderMap, HeaderValue};
use vstd::prelude::*;

verus! {

/// The method of a request.
#[derive(Clone, Debug, PartialEq, Eq)]
pub enum Method {
    /// `OPTIONS`
    Options,
    /// `GET`
    Get,
    /// `POST`
    Post,
    /// `PUT`
    Put,
    /// `DELETE`
    Delete,
    /// `HEAD`
    Head,
    /// `TRACE`
    Trace,
    /// `CONNECT`
    Connect,
    /// `PATCH`
    Patch,
    /// Any other method, by its text.
    Extension(Vec<u8>),
}

/// Everything of a request but its body.
#[derive(Debug, PartialEq)]
pub struct RequestHead {
    /// The method.
    pub method: Method,
    /// The target.
    pub uri: UriParts,
    /// The protocol version.
    pub version: Version,
    /// The header fields.
    pub headers: HeaderMap<HeaderValue>,
}

/// A method with its text read as plain bytes.
pub enum MethodModel {
    /// `OPTIONS`
    Options,
    /// `GET`
    Get,
    /// `POST`
    Post,
    /// `PUT`
    Put,
    /// `DELETE`
    Delete,
    /// `HEAD`
    Head,
    /// `TRACE`
    Trace,
    /// `CONNECT`
    Connect,
    /// `PATCH`
    Patch,
    /// Any other method, by its text.
    Extension(Seq<u8>),
}

impl View for Method {
    type V = MethodModel;

    open spec fn view(&self) -> MethodModel {
        match *self {
            Method::Options => MethodModel::Options,
            Method::Get => MethodModel::Get,
            Method::Post => MethodModel::Post,
            Method::Put => MethodModel::Put,
            Method::Delete => MethodModel::Delete,
            Method::Head => MethodModel::Head,
            Method::Trace => MethodModel::Trace,
            Method::Connect => MethodModel::Connect,
            Method::Patch => MethodModel::Patch,
            Method::Extension(text) => MethodModel::Extension(text@),
        }
    }
}

impl Method {
    /// Tells whether this is the method that asks for a tunnel.
    pub fn is_connect(&self) -> (connect: bool)
        ensures
            connect == (self@ is Connect),
    {
        match self {
            Method::Connect => true,
            _ => false,
        }
    }
}

/// A request head read as plain values.
pub struct RequestModel {
    /// The method.
    pub method: MethodModel,
    /// The target.
    pub uri: UriModel,
    /// The protocol version.
    pub version: Version,
    /// The header fields.
    pub fields: Fields,
}

impl View for RequestHead {
    type V = RequestModel;

    open spec fn view(&self) -> RequestModel {
        RequestModel {
            method: self.method@,
            uri: self.uri@,
            version: self.version,
            fields: fields(self.headers),
        }
    }
}

/// The request that goes out on the forwarding leg: the same method and
/// target, normalized fields, and always HTTP/1.1.
pub open spec fn normalized(request: RequestModel) -> RequestModel {
    RequestModel {
        method: request.method,
        uri: request.uri,
        version: Version::Http11,
        fields: normalized_fields(request.fields),
    }
}

/// Makes a request fit for the outbound client, which speaks HTTP/1.1 only:
/// the host field goes, several cookie fields become one, and the version is
/// set to HTTP/1.1.
///
/// Every request has a normal form, and the answer is that form, with one
/// exception: where there are cookie values to join and the header map, full
/// to the limit of its table, does not take the joined value, the answer is
/// `None`. That cannot happen to a request without cookies, nor to one whose
/// map has room.
pub fn normalize_request(request: RequestHead) -> (forwarded: Option<RequestHead>)
    ensures
        match forwarded {
            Some(forwarded) => forwarded@ == normalized(request@),
            None => !has_room(request@.fields) && request@.fields.dom().contains(cookie_name()),
        },
{
    let RequestHead { method, uri, version: _, mut headers } = request;
    if normalize_fields(&mut headers) {
        Some(RequestHead { method, uri, version: Version::Http11, headers })
    } else {
        None
    }
}

/// Normalizing twice is the same as normalizing once.
pub proof fn law_normalize_idempotent(request: RequestModel)
    ensures
        normalized(normalized(request)) == normalized(request),
{
    lemma_host_is_not_cookie();
    let once = normalized_fields(request.fields);
    let kept = request.fields.remove(host_name());
    assert(once.remove(host_name()) =~= once);
    if kept.dom().contains(cookie_name()) {
        assert(normalized_fields(once) =~= once);
    }
}

/// A request that carries cookie values leaves normalization with exactly one
/// cookie value: the old ones in their order, joined by a semicolon and a
/// space. A request without cookies leaves it without cookies.
pub proof fn law_cookies_joined(request: RequestModel)
    ensures
        request.fields.dom().contains(cookie_name()) ==> normalized(request).fields.dom().contains(
            cookie_name(),
        ) && normalized(request).fields[cookie_name()] == seq![
            joined_with(cookie_separator(), request.fields[cookie_name()]),
        ],
        !request.fields.dom().contains(cookie_name()) ==> !normalized(
            request,
        ).fields.dom().contains(cookie_name()),
{
    lemma_host_is_not_cookie();
}

/// No normalized request has a host field.
pub proof fn law_host_removed(request: RequestModel)
    ensures
        !normalized(request).fields.dom().contains(host_name()),
{
    lemma_host_is_not_cookie();
}

/// Every normalized request is an HTTP/1.1 request.
pub proof fn law_version_coerced(request: RequestModel)
    ensures
        normalized(request).version == Version::Http11,
{
}

/// Normalization touches nothing but the host field, the cookie field and the
/// version.
pub proof fn law_other_fields_kept(request: RequestModel, name: Seq<char>)
    requires
        name != host_name(),
        name != cookie_name(),
    ensures
        normalized(request).method == request.method,
        normalized(request).uri == request.uri,
        normalized(request).fields.dom().contains(name) == request.fields.dom().contains(name),
        request.fields.dom().contains(name) ==> normalized(request).fields[name]
            == request.fields[name],
{
}

} // verus!
