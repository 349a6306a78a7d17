//! The token manager: resolving and caching the bearer credential.
//!
//! A static token is returned as it is, with no cache and no traffic.
//! Interactive credentials fill a cache on the first successful login:
//! a failed login caches nothing, so the next resolution tries again; a
//! successful one is kept until the process exits, and later resolutions
//! return it without another request.

use vstd::prelude::*;

use crate::gateway::{is_2xx, status_ok, HttpMethod, PlankaError, RemoteRequest};
use crate::json::{JVal, JsonValue};
use crate::responses::invalid_body_error;

verus! {

broadcast use crate::json::group_json_model;

/// How the server authenticates against the kanban service.
pub enum PlankaAuth {
    /// A bearer token fixed at startup.
    Token(String),
    /// An email (or user name) and password for interactive login.
    Credentials { email: String, password: String },
}

/// What resolving the credential requires next.
pub enum TokenStep {
    /// A token is at hand; no request is needed.
    Ready(String),
    /// The given login request must be performed first, and its reply
    /// handed to `absorb_login`.
    NeedsLogin(RemoteRequest),
}

/// The credential state: the configured mode and the cache slot that
/// interactive logins fill.
pub struct TokenManager {
    pub auth: PlankaAuth,
    pub cached_token: Option<String>,
}

/// The body posted to log in.
pub open spec fn spec_login_body(email: Seq<char>, password: Seq<char>) -> JVal {
    JVal::Obj(
        seq![("emailOrUsername"@, JVal::Str(email)), ("password"@, JVal::Str(password))],
    )
}

/// The request that logs in with the given credentials.
pub fn login_request(email: &str, password: &str) -> (r: RemoteRequest)
    ensures
        r.method is Post,
        r.path@ == "/api/access-tokens"@,
        r.body matches Some(b) && b.deep_view() == spec_login_body(email@, password@),
{
    let mut members: Vec<(String, JsonValue)> = Vec::new();
    members.push(("emailOrUsername".to_owned(), JsonValue::Str(email.to_owned())));
    members.push(("password".to_owned(), JsonValue::Str(password.to_owned())));
    let body = JsonValue::Obj(members);
    proof {
        assert(body.deep_view()->Obj_0 =~= spec_login_body(email@, password@)->Obj_0);
    }
    RemoteRequest {
        method: HttpMethod::Post,
        path: "/api/access-tokens".to_owned(),
        body: Some(body),
    }
}

/// Whether a login reply body carries a token: its `item` member is a
/// string.
pub open spec fn login_body_has_token(v: JVal) -> bool {
    v.get("item"@) matches Some(t) && t is Str
}

/// The token a login reply body carries.
pub open spec fn login_body_token(v: JVal) -> Seq<char> {
    match v.get("item"@) {
        Some(JVal::Str(t)) => t,
        _ => Seq::empty(),
    }
}

impl TokenManager {
    /// A fresh manager with an empty cache.
    pub fn new(auth: PlankaAuth) -> (r: Self)
        ensures
            r.auth == auth,
            r.cached_token is None,
    {
        TokenManager { auth, cached_token: None }
    }

    /// Resolves the credential as far as no request is needed: a static
    /// token or a cache hit is returned at once, anything else asks for
    /// the login call.  The state is never changed here.
    pub fn resolve_step(&self) -> (r: TokenStep)
        ensures
            match self.auth {
                PlankaAuth::Token(t) => r matches TokenStep::Ready(tok) && tok@ == t@,
                PlankaAuth::Credentials { email, password } => match self.cached_token {
                    Some(t) => r matches TokenStep::Ready(tok) && tok@ == t@,
                    None => r matches TokenStep::NeedsLogin(req) && req.method is Post
                        && req.path@ == "/api/access-tokens"@ && (req.body matches Some(b)
                        && b.deep_view() == spec_login_body(email@, password@)),
                },
            },
    {
        match &self.auth {
            PlankaAuth::Token(t) => TokenStep::Ready(t.clone()),
            PlankaAuth::Credentials { email, password } => match &self.cached_token {
                Some(t) => TokenStep::Ready(t.clone()),
                None => TokenStep::NeedsLogin(login_request(email.as_str(), password.as_str())),
            },
        }
    }

    /// Takes a login reply in.  Only a 2xx reply whose body carries the
    /// token fills the cache and succeeds; every failure leaves the cache
    /// exactly as it was, so the next resolution attempts a fresh login.
    pub fn absorb_login(&mut self, status: u16, body: String, json: Option<JsonValue>) -> (r:
        Result<String, PlankaError>)
        ensures
            final(self).auth == old(self).auth,
            !is_2xx(status) ==> (r matches Err(e) && e matches PlankaError::Status(s, b) && s
                == status && b@ == body@ && final(self).cached_token == old(self).cached_token),
            is_2xx(status) && json is None ==> (r matches Err(e) && e matches PlankaError::Serde(
                m,
            ) && m@ == "invalid response body"@ && final(self).cached_token == old(
                self,
            ).cached_token),
            is_2xx(status) ==> match json {
                Some(v) => {
                    if login_body_has_token(v.deep_view()) {
                        &&& r matches Ok(t) && t@ == login_body_token(v.deep_view())
                        &&& final(self).cached_token matches Some(c) && c@ == login_body_token(v.deep_view())
                    } else {
                        &&& r matches Err(e) && e matches PlankaError::Config(m) && m@
                            == "No token in login response"@
                        &&& final(self).cached_token == old(self).cached_token
                    }
                },
                None => true,
            },
    {
        if !status_ok(status) {
            return Err(PlankaError::Status(status, body));
        }
        let v = match json {
            Some(v) => v,
            None => {
                return Err(invalid_body_error());
            },
        };
        match v.get_str_member("item") {
            Some(t) => {
                let token = t.clone();
                self.cached_token = Some(token.clone());
                Ok(token)
            },
            None => Err(PlankaError::Config("No token in login response".to_owned())),
        }
    }
}

} // verus!
