use vstd::prelude::*;

use crate::client::{opt_view, resolved_redirect_uri, InvalidRedirectUriError};
use crate::csrf::random_secret;
use crate::encoding::encode_base64url;
use crate::grant::opt_string_view;
use crate::ledger::TokenPair;
use crate::model::{
    authenticated_after, row_index, AuthorizationCode, AuthorizationGrant, GrantStage, Pkce,
    ResponseMode,
};
use crate::scope::{is_scope_text, join_scope, parse_scope, scope_contains, scope_set, scope_view};
use crate::store::{stage_session, Store};
use crate::text::{starts_with, str_eq};

verus! {

/// How long a grant may stay pending before the sweep cancels it, in
/// seconds.
pub const GRANT_TTL: i64 = 600;

/// Scopes under this prefix name a device and never need consent.
pub const DEVICE_SCOPE_PREFIX: &'static str = "urn:matrix:device:";

/// What the authorization endpoint received, once parsed.
pub struct GrantRequest {
    pub client_id: String,
    pub redirect_uri: Option<String>,
    pub scope: String,
    pub state: Option<String>,
    pub nonce: Option<String>,
    pub max_age: Option<u32>,
    pub acr_values: Option<String>,
    pub response_mode: ResponseMode,
    pub response_type_code: bool,
    pub response_type_token: bool,
    pub response_type_id_token: bool,
    pub pkce: Option<Pkce>,
    pub requires_consent: bool,
}

/// Why an authorization request was refused.
#[derive(Clone, Copy, Debug, PartialEq, Eq, Structural)]
pub enum GrantRequestError {
    UnknownClient,
    InvalidRedirectUri(InvalidRedirectUriError),
    InvalidScope,
    /// None of `code`, `token`, `id_token` was asked for.
    MissingResponseType,
    /// Tokens were asked for in the query string.
    InvalidResponseMode,
    /// A PKCE challenge came without `response_type=code`.
    PkceWithoutCode,
    /// The freshly drawn code is already taken by another grant.
    DuplicateCode,
}

/// Why a grant could not be moved to another stage.
#[derive(Clone, Copy, Debug, PartialEq, Eq, Structural)]
pub enum GrantError {
    NotFound,
    NotPending,
    NotFulfilled,
    /// The browser session is unknown or has ended.
    InactiveSession,
}

/// Why a grant could not be completed yet.
#[derive(Clone, Copy, Debug, PartialEq, Eq, Structural)]
pub enum GrantCompletionError {
    /// No such grant.
    NotFound,
    /// The grant is not pending.
    NotPending,
    /// The browser session is unknown or has ended.
    InactiveSession,
    /// The last authentication is older than the grant's `max_age`.
    RequiresReauth,
    /// The client lacks consent, or consent was explicitly asked for.
    RequiresConsent,
}

/// What goes back to the client's redirect URI once a grant is fulfilled.
pub struct AuthorizationResponse {
    pub redirect_uri: String,
    pub response_mode: ResponseMode,
    pub state: Option<String>,
    pub code: Option<String>,
    pub response: Option<TokenPair>,
    /// The claims of the ID token, when one was asked for; the key store
    /// signs them into the `id_token` parameter.
    pub id_token: Option<IdTokenClaims>,
}

/// How long an ID token is valid, in seconds.
pub const ID_TOKEN_TTL: i64 = 300;

/// The claims of an OpenID Connect ID token.
pub struct IdTokenClaims {
    /// The user's id.
    pub sub: u64,
    /// The client the token is for.
    pub aud: String,
    pub nonce: Option<String>,
    /// When the user last authenticated in the browser session.
    pub auth_time: Option<i64>,
    pub iat: i64,
    pub exp: i64,
}

pub open spec fn is_device_scope(t: Seq<char>) -> bool {
    DEVICE_SCOPE_PREFIX@.len() <= t.len() && t.subrange(0, DEVICE_SCOPE_PREFIX@.len() as int)
        == DEVICE_SCOPE_PREFIX@
}

/// Some token of the scope is neither consented to nor a device scope.
pub open spec fn lacks_consent(scope: Seq<String>, consent: Set<Seq<char>>) -> bool {
    exists|i: int|
        0 <= i < scope.len() && !consent.contains(#[trigger] scope[i]@) && !is_device_scope(
            scope[i]@,
        )
}

impl Store {
    /// The outcome of the checks that an authorization request goes through
    /// before anything random is drawn.
    pub open spec fn grant_request_check(&self, req: GrantRequest) -> Result<
        (int, Seq<char>),
        GrantRequestError,
    > {
        if !(exists|i: int|
            0 <= i < self.clients@.len() && (#[trigger] self.clients@[i]).client_id@
                == req.client_id@) {
            Err(GrantRequestError::UnknownClient)
        } else {
            let c = choose|i: int|
                0 <= i < self.clients@.len() && (#[trigger] self.clients@[i]).client_id@
                    == req.client_id@;
            let resolved = resolved_redirect_uri(
                self.clients@[c].redirect_uris@,
                opt_string_view(req.redirect_uri),
            );
            if resolved is Err {
                Err(GrantRequestError::InvalidRedirectUri(resolved->Err_0))
            } else if !is_scope_text(req.scope@) {
                Err(GrantRequestError::InvalidScope)
            } else if !req.response_type_code && !req.response_type_token
                && !req.response_type_id_token {
                Err(GrantRequestError::MissingResponseType)
            } else if (req.response_type_token || req.response_type_id_token)
                && req.response_mode == ResponseMode::Query {
                Err(GrantRequestError::InvalidResponseMode)
            } else if req.pkce is Some && !req.response_type_code {
                Err(GrantRequestError::PkceWithoutCode)
            } else {
                Ok((c, resolved->Ok_0))
            }
        }
    }

    fn code_taken(&self, code: &String) -> (r: bool)
        ensures
            r == exists|i: int|
                0 <= i < self.grants@.len() && (#[trigger] self.grants@[i]).code is Some
                    && self.grants@[i].code->0.code@ == code@,
    {
        let mut i: usize = 0;
        while i < self.grants.len()
            invariant
                i <= self.grants@.len(),
                forall|j: int|
                    0 <= j < i ==> !((#[trigger] self.grants@[j]).code is Some
                        && self.grants@[j].code->0.code@ == code@),
            decreases self.grants@.len() - i,
        {
            match &self.grants[i].code {
                Some(c) => {
                    if c.code == *code {
                        return true;
                    }
                },
                None => {},
            }
            i = i + 1;
        }
        false
    }

    /// Whether `self` is `old` with one pending grant appended at `id`, made
    /// from the request at `now`, holding `code` when a code was asked for.
    pub open spec fn grant_appended(
        &self,
        old: &Store,
        req: GrantRequest,
        code: Seq<char>,
        id: u64,
        now: i64,
    ) -> bool {
        let g = self.grants@[id as int];
        &&& old.grant_request_check(req) is Ok
        &&& id == old.grants@.len()
        &&& self.grants@.len() == id + 1
        &&& self.grants@.drop_last() == old.grants@
        &&& g.id == id
        &&& g.stage == GrantStage::Pending
        &&& g.created_at == now
        &&& g.client_id@ == req.client_id@
        &&& g.redirect_uri@ == old.grant_request_check(req)->Ok_0.1
        &&& join_scope(scope_view(g.scope@)) == req.scope@
        &&& opt_string_view(g.state) == opt_string_view(req.state)
        &&& opt_string_view(g.nonce) == opt_string_view(req.nonce)
        &&& opt_string_view(g.acr_values) == opt_string_view(req.acr_values)
        &&& g.max_age == req.max_age
        &&& g.response_mode == req.response_mode
        &&& (g.code is Some <==> req.response_type_code)
        &&& (g.code matches Some(c) ==> c.code@ == code && c.pkce == req.pkce)
        &&& g.response_type_token == req.response_type_token
        &&& g.response_type_id_token == req.response_type_id_token
        &&& g.requires_consent == req.requires_consent
    }

    /// Whether some stored grant holds this code.
    pub open spec fn code_in_use(&self, code: Seq<char>) -> bool {
        exists|i: int|
            0 <= i < self.grants@.len() && (#[trigger] self.grants@[i]).code is Some
                && self.grants@[i].code->0.code@ == code
    }

    /// Creates a pending grant for an authorization request, after checking
    /// the client, the redirect URI, the scope and the response types. A
    /// fresh code is drawn when `response_type=code` is asked for; a draw that
    /// another grant already holds is refused.
    pub fn new_authorization_grant(&mut self, req: GrantRequest, now: i64) -> (r: Result<
        u64,
        GrantRequestError,
    >)
        requires
            old(self).wf(),
        ensures
            final(self).wf(),
            r is Err ==> *final(self) == *old(self),
            old(self).grant_request_check(req) matches Err(e) ==> r == Err::<u64, GrantRequestError>(
                e,
            ),
            old(self).grant_request_check(req) is Ok ==> (r is Ok || r == Err::<
                u64,
                GrantRequestError,
            >(GrantRequestError::DuplicateCode)),
            r == Err::<u64, GrantRequestError>(GrantRequestError::DuplicateCode) ==> req.response_type_code
                && exists|i: int|
                0 <= i < old(self).grants@.len() && (#[trigger] old(self).grants@[i]).code is Some,
            r matches Ok(id) ==> exists|code: Seq<char>|
                #[trigger] final(self).grant_appended(old(self), req, code, id, now),
            final(self).users == old(self).users,
            final(self).browser_sessions == old(self).browser_sessions,
            final(self).clients == old(self).clients,
            final(self).consents == old(self).consents,
            final(self).oauth_sessions == old(self).oauth_sessions,
            final(self).access_tokens == old(self).access_tokens,
            final(self).refresh_tokens == old(self).refresh_tokens,
    {
        let code = if req.response_type_code {
            let secret = random_secret();
            encode_base64url(&secret)
        } else {
            String::new()
        };
        let r = self.new_authorization_grant_with_code(req, code, now);
        proof {
            if r is Ok {
                assert(self.grant_appended(old(self), req, code@, r->Ok_0, now));
            }
        }
        r
    }

    /// Creates a pending grant for an authorization request with a given
    /// code: the request checks as above, then `DuplicateCode` exactly when
    /// a code is asked for and another grant already holds this one.
    pub fn new_authorization_grant_with_code(&mut self, req: GrantRequest, code: String, now: i64) -> (r:
        Result<u64, GrantRequestError>)
        requires
            old(self).wf(),
        ensures
            final(self).wf(),
            r is Err ==> *final(self) == *old(self),
            old(self).grant_request_check(req) matches Err(e) ==> r == Err::<u64, GrantRequestError>(
                e,
            ),
            old(self).grant_request_check(req) is Ok ==> (r == Err::<u64, GrantRequestError>(
                GrantRequestError::DuplicateCode,
            ) <==> req.response_type_code && old(self).code_in_use(code@)),
            old(self).grant_request_check(req) is Ok && !(req.response_type_code && old(
                self,
            ).code_in_use(code@)) ==> r is Ok,
            r matches Ok(id) ==> final(self).grant_appended(old(self), req, code@, id, now),
            final(self).users == old(self).users,
            final(self).browser_sessions == old(self).browser_sessions,
            final(self).clients == old(self).clients,
            final(self).consents == old(self).consents,
            final(self).oauth_sessions == old(self).oauth_sessions,
            final(self).access_tokens == old(self).access_tokens,
            final(self).refresh_tokens == old(self).refresh_tokens,
    {
        let c = match self.lookup_client(req.client_id.as_str()) {
            Some(c) => c,
            None => return Err(GrantRequestError::UnknownClient),
        };
        let requested = match &req.redirect_uri {
            Some(u) => Some(u.as_str()),
            None => None,
        };
        proof {
            assert(opt_view(requested) == opt_string_view(req.redirect_uri));
            let k = choose|i: int|
                0 <= i < self.clients@.len() && (#[trigger] self.clients@[i]).client_id@
                    == req.client_id@;
            assert(k == c);
        }
        let redirect_uri = match self.clients[c].resolve_redirect_uri(requested) {
            Ok(u) => u,
            Err(e) => return Err(GrantRequestError::InvalidRedirectUri(e)),
        };
        let scope = match parse_scope(req.scope.as_str()) {
            Some(s) => s,
            None => return Err(GrantRequestError::InvalidScope),
        };
        if !req.response_type_code && !req.response_type_token && !req.response_type_id_token {
            return Err(GrantRequestError::MissingResponseType);
        }
        if (req.response_type_token || req.response_type_id_token) && req.response_mode
            == ResponseMode::Query {
            return Err(GrantRequestError::InvalidResponseMode);
        }
        let code = if req.response_type_code {
            if self.code_taken(&code) {
                return Err(GrantRequestError::DuplicateCode);
            }
            Some(AuthorizationCode { code, pkce: req.pkce })
        } else {
            if req.pkce.is_some() {
                return Err(GrantRequestError::PkceWithoutCode);
            }
            None
        };
        let id = self.grants.len() as u64;
        self.grants.push(
            AuthorizationGrant {
                id,
                created_at: now,
                stage: GrantStage::Pending,
                client_id: req.client_id,
                redirect_uri,
                scope,
                state: req.state,
                nonce: req.nonce,
                max_age: req.max_age,
                acr_values: req.acr_values,
                response_mode: req.response_mode,
                code,
                response_type_token: req.response_type_token,
                response_type_id_token: req.response_type_id_token,
                requires_consent: req.requires_consent,
            },
        );
        proof {
            assert(self.grants@.drop_last() =~= old(self).grants@);
        }
        Ok(id)
    }
}

impl Store {
    /// The grant with this id.
    pub fn get_grant_by_id(&self, id: u64) -> (r: Option<&AuthorizationGrant>)
        requires
            self.wf(),
        ensures
            r matches Some(g) ==> id < self.grants@.len() && *g == self.grants@[id as int],
            r is None ==> id >= self.grants@.len(),
    {
        match row_index(id, self.grants.len()) {
            Some(i) => Some(&self.grants[i]),
            None => None,
        }
    }

    /// The id of the grant holding this authorization code; codes are
    /// unique.
    pub fn lookup_grant_by_code(&self, code: &str) -> (r: Option<u64>)
        requires
            self.wf(),
        ensures
            r matches Some(id) ==> id < self.grants@.len() && (self.grants@[id as int].code matches Some(c) && c.code@ == code@),
            r is None ==> forall|i: int|
                0 <= i < self.grants@.len() ==> !((#[trigger] self.grants@[i]).code matches Some(c)
                    && c.code@ == code@),
    {
        let mut i: usize = 0;
        while i < self.grants.len()
            invariant
                i <= self.grants@.len(),
                forall|j: int|
                    0 <= j < i ==> !((#[trigger] self.grants@[j]).code matches Some(c) && c.code@
                        == code@),
            decreases self.grants@.len() - i,
        {
            match &self.grants[i].code {
                Some(c) => {
                    if str_eq(c.code.as_str(), code) {
                        return Some(i as u64);
                    }
                },
                None => {},
            }
            i = i + 1;
        }
        None
    }

    /// Cancels a pending grant (consent denied, timeout).
    pub fn cancel_grant(&mut self, id: u64, now: i64) -> (r: Result<(), GrantError>)
        requires
            old(self).wf(),
        ensures
            final(self).wf(),
            id >= old(self).grants@.len() ==> r == Err::<(), GrantError>(GrantError::NotFound),
            id < old(self).grants@.len() && !(old(self).grants@[id as int].stage is Pending) ==> r
                == Err::<(), GrantError>(GrantError::NotPending),
            r is Err ==> *final(self) == *old(self),
            id < old(self).grants@.len() && old(self).grants@[id as int].stage is Pending ==> r is Ok
                && final(self).grants@ == old(self).grants@.update(
                id as int,
                AuthorizationGrant {
                    stage: GrantStage::Cancelled { cancelled_at: now },
                    ..old(self).grants@[id as int]
                },
            ),
            final(self).users == old(self).users,
            final(self).browser_sessions == old(self).browser_sessions,
            final(self).clients == old(self).clients,
            final(self).consents == old(self).consents,
            final(self).oauth_sessions == old(self).oauth_sessions,
            final(self).access_tokens == old(self).access_tokens,
            final(self).refresh_tokens == old(self).refresh_tokens,
    {
        let i = match row_index(id, self.grants.len()) {
            Some(i) => i,
            None => return Err(GrantError::NotFound),
        };
        if !self.grants[i].stage.is_pending() {
            return Err(GrantError::NotPending);
        }
        self.grants[i].stage = GrantStage::Cancelled { cancelled_at: now };
        proof {
            assert forall|g: int|
                0 <= g < self.grants@.len() && (#[trigger] stage_session(self.grants@[g].stage))
                    is Some implies scope_set(self.grants@[g].scope@).subset_of(
                self.consent_set(
                    self.session_user(stage_session(self.grants@[g].stage)->0),
                    self.grants@[g].client_id@,
                ),
            ) by {
                assert(g != i);
                assert(self.grants@[g] == old(self).grants@[g]);
            }
        }
        Ok(())
    }

    /// Cancels every grant still pending `GRANT_TTL` seconds after it was
    /// created.
    pub fn cancel_expired_grants(&mut self, now: i64)
        requires
            old(self).wf(),
        ensures
            final(self).wf(),
            final(self).grants@.len() == old(self).grants@.len(),
            forall|i: int|
                0 <= i < final(self).grants@.len() ==> #[trigger] final(self).grants@[i] == if old(
                    self,
                ).grants@[i].stage is Pending && old(self).grants@[i].created_at + GRANT_TTL
                    <= now {
                    AuthorizationGrant {
                        stage: GrantStage::Cancelled { cancelled_at: now },
                        ..old(self).grants@[i]
                    }
                } else {
                    old(self).grants@[i]
                },
            final(self).users == old(self).users,
            final(self).browser_sessions == old(self).browser_sessions,
            final(self).clients == old(self).clients,
            final(self).consents == old(self).consents,
            final(self).oauth_sessions == old(self).oauth_sessions,
            final(self).access_tokens == old(self).access_tokens,
            final(self).refresh_tokens == old(self).refresh_tokens,
    {
        let mut i: usize = 0;
        while i < self.grants.len()
            invariant
                self.wf(),
                i <= self.grants@.len(),
                self.grants@.len() == old(self).grants@.len(),
                forall|k: int|
                    0 <= k < self.grants@.len() ==> #[trigger] self.grants@[k] == if k < i && old(
                        self,
                    ).grants@[k].stage is Pending && old(self).grants@[k].created_at + GRANT_TTL
                        <= now {
                        AuthorizationGrant {
                            stage: GrantStage::Cancelled { cancelled_at: now },
                            ..old(self).grants@[k]
                        }
                    } else {
                        old(self).grants@[k]
                    },
                self.users == old(self).users,
                self.browser_sessions == old(self).browser_sessions,
                self.clients == old(self).clients,
                self.consents == old(self).consents,
                self.oauth_sessions == old(self).oauth_sessions,
                self.access_tokens == old(self).access_tokens,
                self.refresh_tokens == old(self).refresh_tokens,
            decreases self.grants@.len() - i,
        {
            if self.grants[i].stage.is_pending() && (self.grants[i].created_at as i128) + (
            GRANT_TTL as i128) <= now as i128 {
                let ghost before = *self;
                self.grants[i].stage = GrantStage::Cancelled { cancelled_at: now };
                proof {
                    assert forall|g: int|
                        0 <= g < self.grants@.len() && (#[trigger] stage_session(
                            self.grants@[g].stage,
                        )) is Some implies scope_set(self.grants@[g].scope@).subset_of(
                        self.consent_set(
                            self.session_user(stage_session(self.grants@[g].stage)->0),
                            self.grants@[g].client_id@,
                        ),
                    ) by {
                        assert(g != i);
                        assert(self.grants@[g] == before.grants@[g]);
                    }
                }
            }
            i = i + 1;
        }
    }
}

fn lacks_consent_exec(scope: &Vec<String>, consent: &Vec<String>) -> (r: bool)
    ensures
        r == lacks_consent(scope@, scope_set(consent@)),
{
    let mut i: usize = 0;
    while i < scope.len()
        invariant
            i <= scope@.len(),
            forall|j: int|
                0 <= j < i ==> scope_set(consent@).contains(#[trigger] scope@[j]@)
                    || is_device_scope(scope@[j]@),
        decreases scope@.len() - i,
    {
        if !scope_contains(consent, &scope[i]) && !starts_with(
            scope[i].as_str(),
            DEVICE_SCOPE_PREFIX,
        ) {
            return true;
        }
        i = i + 1;
    }
    false
}

impl Store {
    /// Moves a pending grant to Fulfilled in an active browser session:
    /// records the user's consent to the grant's scope, derives an OAuth
    /// session and links it.
    pub fn fulfill_grant(&mut self, grant_id: u64, session_id: u64, now: i64) -> (r: Result<
        u64,
        GrantError,
    >)
        requires
            old(self).wf(),
        ensures
            final(self).wf(),
            r is Err ==> *final(self) == *old(self),
            grant_id >= old(self).grants@.len() ==> r == Err::<u64, GrantError>(GrantError::NotFound),
            grant_id < old(self).grants@.len() && !(old(self).grants@[grant_id as int].stage is Pending)
                ==> r == Err::<u64, GrantError>(GrantError::NotPending),
            grant_id < old(self).grants@.len() && old(self).grants@[grant_id as int].stage is Pending
                && (session_id >= old(self).browser_sessions@.len()
                || old(self).browser_sessions@[session_id as int].finished_at is Some) ==> r
                == Err::<u64, GrantError>(GrantError::InactiveSession),
            grant_id < old(self).grants@.len() && old(self).grants@[grant_id as int].stage is Pending
                && session_id < old(self).browser_sessions@.len()
                && old(self).browser_sessions@[session_id as int].finished_at is None ==> r is Ok,
            r matches Ok(s) ==> {
                let g = old(self).grants@[grant_id as int];
                let user = old(self).browser_sessions@[session_id as int].user_id;
                &&& s == old(self).oauth_sessions@.len()
                &&& final(self).grants@ == old(self).grants@.update(
                    grant_id as int,
                    AuthorizationGrant {
                        stage: GrantStage::Fulfilled { session_id: s, fulfilled_at: now },
                        ..g
                    },
                )
                &&& final(self).oauth_sessions@.len() == s + 1
                &&& final(self).oauth_sessions@.drop_last() == old(self).oauth_sessions@
                &&& final(self).oauth_sessions@[s as int].browser_session_id == session_id
                &&& final(self).oauth_sessions@[s as int].client_id@ == g.client_id@
                &&& final(self).oauth_sessions@[s as int].scope@ == g.scope@
                &&& final(self).oauth_sessions@[s as int].finished_at is None
                &&& (forall|u: u64, c: Seq<char>|
                    #[trigger] final(self).consent_set(u, c) == if u == user && c == g.client_id@ {
                        old(self).consent_set(u, c).union(scope_set(g.scope@))
                    } else {
                        old(self).consent_set(u, c)
                    })
                &&& final(self).access_tokens == old(self).access_tokens
                &&& final(self).refresh_tokens == old(self).refresh_tokens
            },
            final(self).users == old(self).users,
            final(self).browser_sessions == old(self).browser_sessions,
            final(self).clients == old(self).clients,
    {
        let gi = match row_index(grant_id, self.grants.len()) {
            Some(i) => i,
            None => return Err(GrantError::NotFound),
        };
        if !self.grants[gi].stage.is_pending() {
            return Err(GrantError::NotPending);
        }
        let si = match row_index(session_id, self.browser_sessions.len()) {
            Some(i) => i,
            None => return Err(GrantError::InactiveSession),
        };
        if !self.browser_sessions[si].is_active() {
            return Err(GrantError::InactiveSession);
        }
        let user = self.browser_sessions[si].user_id;
        let ghost g = self.grants@[gi as int];
        let scope = crate::scope::clone_scope(&self.grants[gi].scope);
        let client_id = self.grants[gi].client_id.clone();
        self.record_consent(user, client_id.as_str(), &scope);
        let ghost after_consent = *self;
        let s = self.derive_session(session_id, &client_id, &scope, now);
        assert(self.consents == after_consent.consents);
        proof {
            assert forall|u: u64, c: Seq<char>|
                #[trigger] self.consent_set(u, c) == after_consent.consent_set(u, c) by {
                assert(self.consent_set(u, c) =~= after_consent.consent_set(u, c));
            }
        }
        let ghost before_stage = *self;
        self.grants[gi].stage = GrantStage::Fulfilled { session_id: s, fulfilled_at: now };
        proof {
            assert(self.session_user(s) == user);
            assert forall|k: int|
                0 <= k < self.grants@.len() && (#[trigger] stage_session(self.grants@[k].stage))
                    is Some implies scope_set(self.grants@[k].scope@).subset_of(
                self.consent_set(
                    self.session_user(stage_session(self.grants@[k].stage)->0),
                    self.grants@[k].client_id@,
                ),
            ) by {
                if k != gi {
                    assert(self.grants@[k] == before_stage.grants@[k]);
                } else {
                    assert(self.consent_set(user, g.client_id@) == after_consent.consent_set(
                        user,
                        g.client_id@,
                    ));
                }
            }
            assert forall|i: int, j: int|
                0 <= i < self.grants@.len() && 0 <= j < self.grants@.len() && i != j
                    && (#[trigger] self.grants@[i]).code is Some && (#[trigger] self.grants@[j]).code is Some
                    implies self.grants@[i].code->0.code@ != self.grants@[j].code->0.code@ by {
                assert(self.grants@[i].code == before_stage.grants@[i].code);
                assert(self.grants@[j].code == before_stage.grants@[j].code);
            }
        }
        proof {
            assert(self.grants@ =~= old(self).grants@.update(
                gi as int,
                AuthorizationGrant {
                    stage: GrantStage::Fulfilled { session_id: s, fulfilled_at: now },
                    ..g
                },
            ));
            assert forall|u: u64, c: Seq<char>|
                #[trigger] self.consent_set(u, c) == after_consent.consent_set(u, c) by {
                assert(self.consent_set(u, c) =~= after_consent.consent_set(u, c));
            }
        }
        Ok(s)
    }

    /// Moves a fulfilled grant to Exchanged; its code is then spent.
    pub fn exchange_grant(&mut self, grant_id: u64, now: i64) -> (r: Result<(), GrantError>)
        requires
            old(self).wf(),
        ensures
            final(self).wf(),
            r is Err ==> *final(self) == *old(self),
            grant_id >= old(self).grants@.len() ==> r == Err::<(), GrantError>(GrantError::NotFound),
            grant_id < old(self).grants@.len() && !(old(self).grants@[grant_id as int].stage is Fulfilled)
                ==> r == Err::<(), GrantError>(GrantError::NotFulfilled),
            grant_id < old(self).grants@.len() && old(self).grants@[grant_id as int].stage is Fulfilled
                ==> r is Ok && final(self).grants@ == old(self).grants@.update(
                grant_id as int,
                AuthorizationGrant {
                    stage: GrantStage::Exchanged {
                        session_id: old(self).grants@[grant_id as int].stage->Fulfilled_session_id,
                        fulfilled_at: old(self).grants@[grant_id as int].stage->Fulfilled_fulfilled_at,
                        exchanged_at: now,
                    },
                    ..old(self).grants@[grant_id as int]
                },
            ),
            final(self).users == old(self).users,
            final(self).browser_sessions == old(self).browser_sessions,
            final(self).clients == old(self).clients,
            final(self).consents == old(self).consents,
            final(self).oauth_sessions == old(self).oauth_sessions,
            final(self).access_tokens == old(self).access_tokens,
            final(self).refresh_tokens == old(self).refresh_tokens,
    {
        let gi = match row_index(grant_id, self.grants.len()) {
            Some(i) => i,
            None => return Err(GrantError::NotFound),
        };
        let (session_id, fulfilled_at) = match self.grants[gi].stage {
            GrantStage::Fulfilled { session_id, fulfilled_at } => (session_id, fulfilled_at),
            _ => return Err(GrantError::NotFulfilled),
        };
        let ghost before = *self;
        self.grants[gi].stage = GrantStage::Exchanged { session_id, fulfilled_at, exchanged_at: now };
        proof {
            assert forall|k: int|
                0 <= k < self.grants@.len() && (#[trigger] stage_session(self.grants@[k].stage))
                    is Some implies scope_set(self.grants@[k].scope@).subset_of(
                self.consent_set(
                    self.session_user(stage_session(self.grants@[k].stage)->0),
                    self.grants@[k].client_id@,
                ),
            ) by {
                if k != gi {
                    assert(self.grants@[k] == before.grants@[k]);
                }
                assert(stage_session(before.grants@[k].stage) is Some);
            }
            assert forall|i: int, j: int|
                0 <= i < self.grants@.len() && 0 <= j < self.grants@.len() && i != j
                    && (#[trigger] self.grants@[i]).code is Some && (#[trigger] self.grants@[j]).code is Some
                    implies self.grants@[i].code->0.code@ != self.grants@[j].code->0.code@ by {
                assert(self.grants@[i].code == before.grants@[i].code);
                assert(self.grants@[j].code == before.grants@[j].code);
            }
            assert(self.grants@ =~= old(self).grants@.update(
                gi as int,
                AuthorizationGrant {
                    stage: GrantStage::Exchanged { session_id, fulfilled_at, exchanged_at: now },
                    ..old(self).grants@[gi as int]
                },
            ));
        }
        Ok(())
    }

    /// What stops a grant from being completed in a browser session at
    /// `now`, if anything.
    pub open spec fn completion_check(&self, grant_id: u64, session_id: u64, now: i64) -> Result<
        (),
        GrantCompletionError,
    > {
        if grant_id >= self.grants@.len() {
            Err(GrantCompletionError::NotFound)
        } else if !(self.grants@[grant_id as int].stage is Pending) {
            Err(GrantCompletionError::NotPending)
        } else if session_id >= self.browser_sessions@.len()
            || self.browser_sessions@[session_id as int].finished_at is Some {
            Err(GrantCompletionError::InactiveSession)
        } else {
            let g = self.grants@[grant_id as int];
            let bs = self.browser_sessions@[session_id as int];
            if g.max_age matches Some(m) && !authenticated_after(bs, g.created_at - m) {
                Err(GrantCompletionError::RequiresReauth)
            } else if lacks_consent(g.scope@, self.consent_set(bs.user_id, g.client_id@))
                || g.requires_consent {
                Err(GrantCompletionError::RequiresConsent)
            } else {
                Ok(())
            }
        }
    }

    /// Completes a pending grant in a browser session: checks the
    /// authentication's freshness and the consent, then derives an OAuth
    /// session, fulfills the grant, records the consent, and builds the
    /// response (code, tokens for `response_type=token`).
    pub fn complete(&mut self, grant_id: u64, session_id: u64, now: i64) -> (r: Result<
        AuthorizationResponse,
        GrantCompletionError,
    >)
        requires
            old(self).wf(),
        ensures
            final(self).wf(),
            old(self).completion_check(grant_id, session_id, now) matches Err(e) ==> r == Err::<
                AuthorizationResponse,
                GrantCompletionError,
            >(e) && *final(self) == *old(self),
            old(self).completion_check(grant_id, session_id, now) is Ok ==> r is Ok,
            r matches Ok(resp) ==> {
                let g = old(self).grants@[grant_id as int];
                let s = old(self).oauth_sessions@.len() as u64;
                let user = old(self).browser_sessions@[session_id as int].user_id;
                &&& final(self).grants@ == old(self).grants@.update(
                    grant_id as int,
                    AuthorizationGrant {
                        stage: GrantStage::Fulfilled { session_id: s, fulfilled_at: now },
                        ..g
                    },
                )
                &&& final(self).oauth_sessions@.len() == s + 1
                &&& final(self).oauth_sessions@[s as int].browser_session_id == session_id
                &&& final(self).oauth_sessions@[s as int].client_id@ == g.client_id@
                &&& final(self).oauth_sessions@[s as int].scope@ == g.scope@
                &&& final(self).oauth_sessions@[s as int].finished_at is None
                &&& (forall|u: u64, c: Seq<char>|
                    #[trigger] final(self).consent_set(u, c) == if u == user && c == g.client_id@ {
                        old(self).consent_set(u, c).union(scope_set(g.scope@))
                    } else {
                        old(self).consent_set(u, c)
                    })
                &&& resp.redirect_uri@ == g.redirect_uri@
                &&& resp.response_mode == g.response_mode
                &&& opt_string_view(resp.state) == opt_string_view(g.state)
                &&& (resp.code is Some <==> g.code is Some)
                &&& (resp.code matches Some(c) ==> c@ == g.code->0.code@)
                &&& (resp.response is Some <==> g.response_type_token)
                &&& (resp.response matches Some(p) ==> final(self).pair_appended(old(self), s, now, p))
                &&& (resp.response is None ==> final(self).access_tokens == old(self).access_tokens
                    && final(self).refresh_tokens == old(self).refresh_tokens)
                &&& (resp.id_token is Some <==> g.response_type_id_token)
                &&& (resp.id_token matches Some(t) ==> {
                    let bs = old(self).browser_sessions@[session_id as int];
                    &&& t.sub == user
                    &&& t.aud@ == g.client_id@
                    &&& opt_string_view(t.nonce) == opt_string_view(g.nonce)
                    &&& (bs.last_authentication matches Some(a) ==> t.auth_time == Some(a.created_at))
                    &&& (bs.last_authentication is None ==> t.auth_time is None)
                    &&& t.iat == now
                    &&& t.exp == crate::csrf::expiry(now, ID_TOKEN_TTL)
                })
            },
            final(self).users == old(self).users,
            final(self).browser_sessions == old(self).browser_sessions,
            final(self).clients == old(self).clients,
    {
        let gi = match row_index(grant_id, self.grants.len()) {
            Some(i) => i,
            None => return Err(GrantCompletionError::NotFound),
        };
        if !self.grants[gi].stage.is_pending() {
            return Err(GrantCompletionError::NotPending);
        }
        let si = match row_index(session_id, self.browser_sessions.len()) {
            Some(i) => i,
            None => return Err(GrantCompletionError::InactiveSession),
        };
        if !self.browser_sessions[si].is_active() {
            return Err(GrantCompletionError::InactiveSession);
        }
        if !self.browser_sessions[si].was_authenticated_after(
            self.grants[gi].max_age,
            self.grants[gi].created_at,
        ) {
            return Err(GrantCompletionError::RequiresReauth);
        }
        let user = self.browser_sessions[si].user_id;
        let consent = self.fetch_consent(user, self.grants[gi].client_id.as_str());
        if lacks_consent_exec(&self.grants[gi].scope, &consent) || self.grants[gi].requires_consent {
            return Err(GrantCompletionError::RequiresConsent);
        }
        let ghost g = self.grants@[gi as int];
        let s = match self.fulfill_grant(grant_id, session_id, now) {
            Ok(s) => s,
            Err(_) => return Err(GrantCompletionError::NotFound),
        };
        let code = match &self.grants[gi].code {
            Some(c) => Some(c.code.clone()),
            None => None,
        };
        let state = match &self.grants[gi].state {
            Some(st) => Some(st.clone()),
            None => None,
        };
        let id_token = if self.grants[gi].response_type_id_token {
            let auth_time = match self.browser_sessions[si].last_authentication {
                Some(a) => Some(a.created_at),
                None => None,
            };
            let nonce = match &self.grants[gi].nonce {
                Some(n) => Some(n.clone()),
                None => None,
            };
            Some(
                IdTokenClaims {
                    sub: self.browser_sessions[si].user_id,
                    aud: self.grants[gi].client_id.clone(),
                    nonce,
                    auth_time,
                    iat: now,
                    exp: crate::csrf::saturating_expiry(now, ID_TOKEN_TTL),
                },
            )
        } else {
            None
        };
        let ghost before_tokens = *self;
        let response = if self.grants[gi].response_type_token {
            let (_, _, pair) = self.issue_token_pair(s, now);
            Some(pair)
        } else {
            None
        };
        proof {
            assert forall|u: u64, c: Seq<char>|
                #[trigger] self.consent_set(u, c) == before_tokens.consent_set(u, c) by {
                assert(self.consent_set(u, c) =~= before_tokens.consent_set(u, c));
            }
        }
        Ok(
            AuthorizationResponse {
                redirect_uri: self.grants[gi].redirect_uri.clone(),
                response_mode: self.grants[gi].response_mode,
                state,
                code,
                response,
                id_token,
            },
        )
    }
}

/// For every grant that reached Exchanged (or Fulfilled), the consent that
/// its user holds for its client covers every scope token of the grant:
/// fulfilling a grant records its scope as consented, and consent only
/// grows.
pub proof fn lemma_consent_covers_exchanged(store: &Store, i: int, t: Seq<char>)
    requires
        store.wf(),
        0 <= i < store.grants@.len(),
        stage_session(store.grants@[i].stage) is Some,
        scope_set(store.grants@[i].scope@).contains(t),
    ensures
        store.consent_set(
            store.session_user(stage_session(store.grants@[i].stage)->0),
            store.grants@[i].client_id@,
        ).contains(t),
{
}

/// A pending grant asking for `max_age=0` sends a browser session back to
/// reauthentication unless it authenticated since the grant was requested.
pub proof fn lemma_max_age_zero_requires_reauth(store: &Store, grant_id: u64, session_id: u64, now: i64)
    requires
        store.wf(),
        grant_id < store.grants@.len(),
        store.grants@[grant_id as int].stage is Pending,
        store.grants@[grant_id as int].max_age == Some(0u32),
        session_id < store.browser_sessions@.len(),
        store.browser_sessions@[session_id as int].finished_at is None,
        !(store.browser_sessions@[session_id as int].last_authentication matches Some(a)
            && a.created_at >= store.grants@[grant_id as int].created_at),
    ensures
        store.completion_check(grant_id, session_id, now) == Err::<(), GrantCompletionError>(
            GrantCompletionError::RequiresReauth,
        ),
{
}

} // verus!
