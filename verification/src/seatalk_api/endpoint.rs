//! A typed description of one outbound REST call: method, relative path,
//! optional JSON body, and whether the call must carry a bearer token.

use vstd::prelude::*;

verus! {

/// The HTTP method of an outbound call.
#[derive(Debug, Clone, Copy, PartialEq, Eq, Structural)]
pub enum HttpMethod {
    Get,
    Post,
}

pub open spec fn spec_method_name(m: HttpMethod) -> Seq<char> {
    match m {
        HttpMethod::Get => ("GET")@,
        HttpMethod::Post => ("POST")@,
    }
}

impl HttpMethod {
    /// The method's name on the wire.
    pub fn as_str(&self) -> (s: &'static str)
        ensures
            s@ == spec_method_name(*self),
    {
        match self {
            HttpMethod::Get => "GET",
            HttpMethod::Post => "POST",
        }
    }
}

/// One outbound call, described as data. The body, when present, is the exact
/// JSON document stated by `spec_body_doc`.
pub trait Endpoint: Sized {
    /// The HTTP method of the call.
    spec fn spec_method(&self) -> HttpMethod;

    /// The path of the call, relative to the client's base URL.
    spec fn spec_path(&self) -> Seq<char>;

    /// The JSON document sent as the request body, if the call has one.
    spec fn spec_body_doc(&self) -> Option<Seq<char>>;

    /// Whether the call must go through the authenticated path.
    spec fn spec_require_auth(&self) -> bool;

    fn method(&self) -> (m: HttpMethod)
        ensures
            m == self.spec_method(),
    ;

    fn endpoint(&self) -> (p: &'static str)
        ensures
            p@ == self.spec_path(),
    ;

    fn body(&self) -> (b: Option<(&'static str, String)>)
        ensures
            (match b {
                Option::Some((mime, body)) => self.spec_body_doc() == Option::Some(body@) && mime@
                    == ("application/json")@,
                Option::None => self.spec_body_doc() is None,
            }),
    ;

    fn require_auth(&self) -> (r: bool)
        ensures
            r == self.spec_require_auth(),
    ;
}

/// Marks an endpoint whose response payload the caller discards; the response
/// still runs through the full validation chain.
pub struct Ignore<E> {
    endpoint: E,
}

impl<E> Ignore<E> {
    /// The wrapped endpoint.
    pub closed spec fn spec_inner(self) -> E {
        self.endpoint
    }

    /// Unwraps the endpoint.
    pub fn into_inner(self) -> (e: E)
        ensures
            e == self.spec_inner(),
    {
        self.endpoint
    }
}

/// Wraps an endpoint so that its response payload is discarded.
pub fn ignore<E>(endpoint: E) -> (r: Ignore<E>)
    ensures
        r.spec_inner() == endpoint,
{
    Ignore { endpoint }
}

} // verus!
