//! Turning a typed endpoint into the one concrete outbound request the
//! transport executes.

use vstd::prelude::*;

use super::endpoint::{Endpoint, HttpMethod};

verus! {

/// One fully prepared outbound call: everything the transport needs, and
/// nothing it must decide.
#[derive(Debug, Clone)]
pub struct PreparedRequest {
    pub method: HttpMethod,
    pub url: String,
    pub content_type: Option<&'static str>,
    pub body: String,
    pub require_auth: bool,
}

/// The base URL every endpoint path resolves against, ending with a slash.
pub fn base_url(protocol: &str, host: &str) -> (u: String)
    ensures
        u@ == protocol@ + ("://")@ + host@ + ("/")@,
{
    let mut u = protocol.to_owned();
    u.append("://");
    u.append(host);
    u.append("/");
    u
}

/// Resolves an endpoint path against the client's base URL. The base ends
/// with a slash and the path is relative, so resolution is concatenation.
pub fn rest_endpoint(base_url: &str, path: &str) -> (u: String)
    ensures
        u@ == base_url@ + path@,
{
    let mut u = base_url.to_owned();
    u.append(path);
    u
}

/// Builds the concrete request an endpoint describes: resolved URL, method,
/// body with its content type when the endpoint has one, and the auth flag.
pub fn prepare_request<E: Endpoint>(base_url: &str, e: &E) -> (r: PreparedRequest)
    ensures
        r.method == e.spec_method(),
        r.url@ == base_url@ + e.spec_path(),
        r.require_auth == e.spec_require_auth(),
        (match e.spec_body_doc() {
            Option::Some(doc) => r.content_type matches Option::Some(ct) && ct@ == (
            "application/json")@ && r.body@ == doc,
            Option::None => r.content_type is None && r.body@.len() == 0,
        }),
{
    let url = rest_endpoint(base_url, e.endpoint());
    let (content_type, body) = match e.body() {
        Option::Some((mime, body)) => (Option::Some(mime), body),
        Option::None => (Option::None, String::new()),
    };
    PreparedRequest { method: e.method(), url, content_type, body, require_auth: e.require_auth() }
}

} // verus!
