use vstd::prelude::*;

use crate::client::AuthMethod;
use crate::model::row_index;
use crate::scope::{join_scope, join_scope_text, scope_view};
use crate::store::Store;
use crate::token::{classify, TokenType};
use crate::token_endpoint::{credentials_check, ClientAuthError, ClientCredentials};

verus! {

/// What a resource server asks about a token.
pub struct IntrospectionRequest {
    pub token: String,
    pub token_type_hint: Option<TokenType>,
}

/// The answer of the introspection endpoint (RFC 7662).
pub struct IntrospectionResponse {
    pub active: bool,
    pub scope: Option<String>,
    pub client_id: Option<String>,
    pub username: Option<String>,
    pub token_type: Option<TokenType>,
    pub exp: Option<i64>,
    pub iat: Option<i64>,
    pub nbf: Option<i64>,
    pub sub: Option<u64>,
}

/// Why introspection did not describe an active token.
#[derive(Clone, Copy, Debug, PartialEq, Eq, Structural)]
pub enum RouteError {
    ClientNotFound,
    /// Public clients may not introspect.
    NotAllowed,
    /// Unknown, malformed, inactive, or not of the hinted kind; answered as
    /// an inactive token.
    UnknownToken,
    BadRequest,
    ClientCredentialsVerification(ClientAuthError),
}

/// The answer for a token that is not active; it says nothing more.
pub fn inactive() -> (r: IntrospectionResponse)
    ensures
        !r.active,
        r.scope is None && r.client_id is None && r.username is None && r.token_type is None
            && r.exp is None && r.iat is None && r.nbf is None && r.sub is None,
{
    IntrospectionResponse {
        active: false,
        scope: None,
        client_id: None,
        username: None,
        token_type: None,
        exp: None,
        iat: None,
        nbf: None,
        sub: None,
    }
}

impl RouteError {
    /// The HTTP status of the error; an unknown token is answered with 200
    /// and the inactive body.
    pub fn status_code(&self) -> (r: u16)
        ensures
            r == match *self {
                RouteError::UnknownToken => 200u16,
                RouteError::BadRequest => 400u16,
                _ => 401u16,
            },
    {
        match self {
            RouteError::UnknownToken => 200,
            RouteError::BadRequest => 400,
            _ => 401,
        }
    }

    /// The body of the error response: the inactive answer for an unknown
    /// token, none otherwise.
    pub fn into_response(self) -> (r: (u16, Option<IntrospectionResponse>))
        ensures
            r.0 == match self {
                RouteError::UnknownToken => 200u16,
                RouteError::BadRequest => 400u16,
                _ => 401u16,
            },
            r.1 is Some <==> self is UnknownToken,
            r.1 matches Some(b) ==> !b.active && b.scope is None && b.client_id is None
                && b.username is None && b.token_type is None && b.exp is None && b.iat is None
                && b.nbf is None && b.sub is None,
    {
        let status = self.status_code();
        match self {
            RouteError::UnknownToken => (status, Some(inactive())),
            _ => (status, None),
        }
    }
}

/// `a + b`, clamped to the range of `i64`.
pub open spec fn clamped_sum(a: i64, b: i64) -> i64 {
    if a + b > i64::MAX {
        i64::MAX
    } else if a + b < i64::MIN {
        i64::MIN
    } else {
        (a + b) as i64
    }
}

fn clamped_add(a: i64, b: i64) -> (r: i64)
    ensures
        r == clamped_sum(a, b),
{
    let s = a as i128 + b as i128;
    if s > i64::MAX as i128 {
        i64::MAX
    } else if s < i64::MIN as i128 {
        i64::MIN
    } else {
        s as i64
    }
}

impl Store {
    /// The first access token with this text.
    pub open spec fn first_access_with(&self, token: Seq<char>) -> Option<int> {
        if exists|i: int|
            0 <= i < self.access_tokens@.len() && (#[trigger] self.access_tokens@[i]).token@
                == token {
            Some(
                choose|i: int|
                    0 <= i < self.access_tokens@.len() && (#[trigger] self.access_tokens@[i]).token@
                        == token && forall|j: int|
                        0 <= j < i ==> self.access_tokens@[j].token@ != token,
            )
        } else {
            None
        }
    }

    /// Outcome of an introspection request: the kind and position of the
    /// active token it describes, or the error.
    pub open spec fn introspection_check(
        &self,
        cred: ClientCredentials,
        req: Option<IntrospectionRequest>,
        now: i64,
    ) -> Result<(TokenType, int), RouteError> {
        if !(exists|i: int|
            0 <= i < self.clients@.len() && (#[trigger] self.clients@[i]).client_id@
                == cred.client_id@) {
            Err(RouteError::ClientNotFound)
        } else {
            let c = self.clients@[choose|i: int|
                0 <= i < self.clients@.len() && (#[trigger] self.clients@[i]).client_id@
                    == cred.client_id@];
            if c.token_endpoint_auth_method == AuthMethod::NoAuthentication {
                Err(RouteError::NotAllowed)
            } else if credentials_check(c.token_endpoint_auth_method, c.client_secret, cred) is Err {
                Err(
                    RouteError::ClientCredentialsVerification(
                        credentials_check(
                            c.token_endpoint_auth_method,
                            c.client_secret,
                            cred,
                        )->Err_0,
                    ),
                )
            } else if req is None {
                Err(RouteError::BadRequest)
            } else {
                let t = req->0.token@;
                match classify(t) {
                    Err(_) => Err(RouteError::UnknownToken),
                    Ok(kind) => if req->0.token_type_hint matches Some(h) && h != kind {
                        Err(RouteError::UnknownToken)
                    } else if kind == TokenType::AccessToken {
                        match self.first_access_with(t) {
                            Some(i) => if self.access_active(i, now) {
                                Ok((kind, i))
                            } else {
                                Err(RouteError::UnknownToken)
                            },
                            None => Err(RouteError::UnknownToken),
                        }
                    } else {
                        match self.refresh_with_token(t) {
                            Some(i) => if self.refresh_active(i) {
                                Ok((kind, i))
                            } else {
                                Err(RouteError::UnknownToken)
                            },
                            None => Err(RouteError::UnknownToken),
                        }
                    },
                }
            }
        }
    }

    /// The session that the token at position `i` of the given kind
    /// belongs to.
    pub open spec fn token_session(&self, kind: TokenType, i: int) -> u64 {
        if kind == TokenType::AccessToken {
            self.access_tokens@[i].session_id
        } else {
            self.refresh_tokens@[i].session_id
        }
    }

    fn describe_session(&self, session_id: u64, kind: TokenType) -> (r: Option<
        IntrospectionResponse,
    >)
        requires
            self.wf(),
            session_id < self.oauth_sessions@.len(),
        ensures
            r matches Some(resp) ==> {
                let os = self.oauth_sessions@[session_id as int];
                let user = self.session_user(session_id);
                &&& resp.active
                &&& resp.token_type == Some(kind)
                &&& resp.scope matches Some(s) && s@ == join_scope(scope_view(os.scope@))
                &&& resp.client_id matches Some(c) && c@ == os.client_id@
                &&& resp.username matches Some(u) && u@ == self.users@[user as int].username@
                &&& resp.sub == Some(user)
                &&& resp.exp is None
            },
            r is Some,
    {
        let s = match row_index(session_id, self.oauth_sessions.len()) {
            Some(s) => s,
            None => return None,
        };
        let b = match row_index(
            self.oauth_sessions[s].browser_session_id,
            self.browser_sessions.len(),
        ) {
            Some(b) => b,
            None => return None,
        };
        let user_id = self.browser_sessions[b].user_id;
        let u = match row_index(user_id, self.users.len()) {
            Some(u) => u,
            None => return None,
        };
        Some(
            IntrospectionResponse {
                active: true,
                scope: Some(join_scope_text(&self.oauth_sessions[s].scope)),
                client_id: Some(self.oauth_sessions[s].client_id.clone()),
                username: Some(self.users[u].username.clone()),
                token_type: Some(kind),
                exp: None,
                iat: None,
                nbf: None,
                sub: Some(user_id),
            },
        )
    }

    /// Describes a token to an authenticated confidential client: active
    /// tokens with their scope, client, user and times; anything else as
    /// inactive, without telling why.
    pub fn post(&self, cred: &ClientCredentials, form: Option<IntrospectionRequest>, now: i64) -> (r:
        Result<IntrospectionResponse, RouteError>)
        requires
            self.wf(),
        ensures
            match self.introspection_check(*cred, form, now) {
                Err(e) => r == Err::<IntrospectionResponse, RouteError>(e),
                Ok((kind, i)) => r matches Ok(resp) && {
                    let s = self.token_session(kind, i);
                    let os = self.oauth_sessions@[s as int];
                    let user = self.session_user(s);
                    &&& resp.active
                    &&& resp.token_type == Some(kind)
                    &&& resp.scope matches Some(sc) && sc@ == join_scope(scope_view(os.scope@))
                    &&& resp.client_id matches Some(c) && c@ == os.client_id@
                    &&& resp.username matches Some(u) && u@ == self.users@[user as int].username@
                    &&& resp.sub == Some(user)
                    &&& (kind == TokenType::AccessToken ==> {
                        let t = self.access_tokens@[i];
                        &&& resp.exp == Some(clamped_sum(t.created_at, t.expires_after))
                        &&& resp.iat == Some(t.created_at)
                        &&& resp.nbf == Some(t.created_at)
                    })
                    &&& (kind == TokenType::RefreshToken ==> {
                        let t = self.refresh_tokens@[i];
                        &&& resp.exp is None
                        &&& resp.iat == Some(t.created_at)
                        &&& resp.nbf == Some(t.created_at)
                    })
                },
            },
    {
        let c = match self.lookup_client(cred.client_id.as_str()) {
            Some(c) => c,
            None => return Err(RouteError::ClientNotFound),
        };
        proof {
            let k = choose|i: int|
                0 <= i < self.clients@.len() && (#[trigger] self.clients@[i]).client_id@
                    == cred.client_id@;
            assert(k == c);
        }
        if self.clients[c].token_endpoint_auth_method == AuthMethod::NoAuthentication {
            return Err(RouteError::NotAllowed);
        }
        match self.authenticate_client(cred) {
            Err(e) => return Err(RouteError::ClientCredentialsVerification(e)),
            Ok(_) => {},
        }
        let form = match form {
            Some(f) => f,
            None => return Err(RouteError::BadRequest),
        };
        let kind = match TokenType::check(form.token.as_str()) {
            Ok(k) => k,
            Err(_) => return Err(RouteError::UnknownToken),
        };
        match form.token_type_hint {
            Some(h) => {
                if h != kind {
                    return Err(RouteError::UnknownToken);
                }
            },
            None => {},
        }
        match kind {
            TokenType::AccessToken => {
                let i = match self.find_access_token(form.token.as_str()) {
                    Some(i) => i,
                    None => return Err(RouteError::UnknownToken),
                };
                proof {
                    let k = choose|k: int|
                        0 <= k < self.access_tokens@.len() && (#[trigger] self.access_tokens@[k]).token@
                            == form.token@ && forall|j: int|
                            0 <= j < k ==> self.access_tokens@[j].token@ != form.token@;
                    if k > i {
                        assert(self.access_tokens@[i as int].token@ == form.token@);
                    }
                    assert(k == i);
                }
                let t = &self.access_tokens[i];
                if !(t.revoked_at.is_none() && (now as i128) < t.created_at as i128
                    + t.expires_after as i128) {
                    return Err(RouteError::UnknownToken);
                }
                let mut resp = match self.describe_session(t.session_id, kind) {
                    Some(r) => r,
                    None => return Err(RouteError::UnknownToken),
                };
                resp.exp = Some(clamped_add(t.created_at, t.expires_after));
                resp.iat = Some(t.created_at);
                resp.nbf = Some(t.created_at);
                Ok(resp)
            },
            TokenType::RefreshToken => {
                let i = match self.find_refresh_token(form.token.as_str()) {
                    Some(i) => i,
                    None => return Err(RouteError::UnknownToken),
                };
                proof {
                    let k = choose|k: int|
                        0 <= k < self.refresh_tokens@.len() && (#[trigger] self.refresh_tokens@[k]).token@
                            == form.token@ && forall|j: int|
                            0 <= j < k ==> self.refresh_tokens@[j].token@ != form.token@;
                    if k > i {
                        assert(self.refresh_tokens@[i as int].token@ == form.token@);
                    }
                    assert(k == i);
                }
                let t = &self.refresh_tokens[i];
                if !(t.consumed_at.is_none() && self.session_is_active(t.session_id)) {
                    return Err(RouteError::UnknownToken);
                }
                let mut resp = match self.describe_session(t.session_id, kind) {
                    Some(r) => r,
                    None => return Err(RouteError::UnknownToken),
                };
                resp.iat = Some(t.created_at);
                resp.nbf = Some(t.created_at);
                Ok(resp)
            },
        }
    }
}

/// An access token that was revoked (as every token of a replayed code's
/// session is) is never described as active; issued access tokens
/// classify as such.
pub proof fn lemma_revoked_access_token_inactive(
    store: &Store,
    cred: ClientCredentials,
    req: IntrospectionRequest,
    now: i64,
)
    requires
        classify(req.token@) == Ok::<TokenType, crate::token::TokenFormatError>(
            TokenType::AccessToken,
        ),
        store.first_access_with(req.token@) matches Some(i) && store.access_tokens@[i].revoked_at is Some,
    ensures
        store.introspection_check(cred, Some(req), now) is Err,
{
}

} // verus!
