//! The token-exchange endpoint: trades the application credentials for a
//! bearer token over the unauthenticated path.

use vstd::prelude::*;

use crate::seatalk_api::endpoint::{Endpoint, HttpMethod};
use crate::text::{push_json_str, spec_json_str};

verus! {

/// A request to exchange the application credentials for an access token.
#[derive(Debug, Clone)]
pub struct GetAccessToken {
    app_id: String,
    app_secret: String,
}

/// The JSON document for the token-exchange request body.
pub open spec fn spec_access_token_doc(app_id: Seq<char>, app_secret: Seq<char>) -> Seq<char> {
    ("{\"app_id\":")@ + spec_json_str(app_id) + (",\"app_secret\":")@ + spec_json_str(app_secret)
        + ("}")@
}

impl GetAccessToken {
    pub closed spec fn spec_app_id(&self) -> Seq<char> {
        self.app_id@
    }

    pub closed spec fn spec_app_secret(&self) -> Seq<char> {
        self.app_secret@
    }

    /// Builds the token-exchange request from the credentials.
    pub fn new(app_id: String, app_secret: String) -> (r: Self)
        ensures
            r.spec_app_id() == app_id@,
            r.spec_app_secret() == app_secret@,
    {
        GetAccessToken { app_id, app_secret }
    }
}

impl Endpoint for GetAccessToken {
    open spec fn spec_method(&self) -> HttpMethod {
        HttpMethod::Post
    }

    open spec fn spec_path(&self) -> Seq<char> {
        ("auth/app_access_token")@
    }

    open spec fn spec_body_doc(&self) -> Option<Seq<char>> {
        Option::Some(spec_access_token_doc(self.spec_app_id(), self.spec_app_secret()))
    }

    open spec fn spec_require_auth(&self) -> bool {
        false
    }

    fn method(&self) -> (m: HttpMethod) {
        HttpMethod::Post
    }

    fn endpoint(&self) -> (p: &'static str) {
        "auth/app_access_token"
    }

    fn body(&self) -> (b: Option<(&'static str, String)>) {
        let mut out = String::new();
        out.append("{\"app_id\":");
        push_json_str(&mut out, self.app_id.as_str());
        out.append(",\"app_secret\":");
        push_json_str(&mut out, self.app_secret.as_str());
        out.append("}");
        proof {
            assert(out@ =~= spec_access_token_doc(self.spec_app_id(), self.spec_app_secret()));
        }
        Option::Some(("application/json", out))
    }

    fn require_auth(&self) -> (r: bool) {
        false
    }
}

} // verus!
