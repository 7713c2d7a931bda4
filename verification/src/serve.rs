//! The inner HTTP server: what is done to a request that arrives inside an
//! intercepted tunnel before it goes to the dispatcher.

use crate::request::RequestHead;
use crate::tunnel::Served;
use crate::uri::{Scheme, UriError};
use vstd::prelude::*;

verus! {

/// The URI scheme that goes with a kind of interception.
pub open spec fn scheme_of(served: Served) -> Scheme {
    match served {
        Served::Http => Scheme::Http,
        Served::Https => Scheme::Https,
    }
}

/// The request that the dispatcher gets to see for a request that arrived
/// inside a tunnel to `authority`.
///
/// A client names only a path in an HTTP/1 request that it sends through a
/// tunnel. Such a request gets the scheme and the authority of the tunnel
/// put into its target, and is an error if it has no path at all. Requests of
/// other versions pass as they are.
pub open spec fn inner_request(request: RequestHead, served: Served, authority: Vec<u8>) -> Result<
    RequestHead,
    UriError,
> {
    match request.uri.absolute_target(request.version, scheme_of(served), authority) {
        Ok(uri) => Ok(
            RequestHead {
                method: request.method,
                uri,
                version: request.version,
                headers: request.headers,
            },
        ),
        Err(error) => Err(error),
    }
}

/// Prepares a request that arrived inside a tunnel for the dispatcher.
pub fn absolute_request(request: RequestHead, served: Served, authority: Vec<u8>) -> (outcome:
    Result<RequestHead, UriError>)
    ensures
        outcome == inner_request(request, served, authority),
{
    let RequestHead { method, uri, version, headers } = request;
    let scheme = match served {
        Served::Http => Scheme::Http,
        Served::Https => Scheme::Https,
    };
    match uri.into_absolute(version, scheme, authority) {
        Ok(uri) => Ok(RequestHead { method, uri, version, headers }),
        Err(error) => Err(error),
    }
}

/// An HTTP/1 request with a path leaves the inner server with the scheme and
/// the authority of its tunnel, and with everything else as it came.
pub proof fn law_inner_requests_are_absolute(
    request: RequestHead,
    served: Served,
    authority: Vec<u8>,
)
    requires
        request.version.is_http1(),
        request.uri.path_and_query is Some,
    ensures
        inner_request(request, served, authority) matches Ok(rewritten) && rewritten.uri.scheme
            == Some(scheme_of(served)) && rewritten.uri.authority == Some(authority)
            && rewritten.uri.path_and_query == request.uri.path_and_query
            && rewritten.uri.well_formed() && rewritten@.fields == request@.fields
            && rewritten.method == request.method && rewritten.version == request.version,
{
}

} // verus!
