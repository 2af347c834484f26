use vstd::prelude::*;

use crate::client::AuthMethod;
use crate::ledger::TokenPair;
use crate::model::{row_index, AuthorizationGrant, GrantStage};
use crate::pkce::pkce_verifies;
use crate::store::{AccessToken, RefreshToken, Store};
use crate::text::str_eq;
use crate::token::{classify, TokenFormatError, TokenType};

verus! {

/// What a client presented to authenticate itself.
pub struct ClientCredentials {
    pub client_id: String,
    pub method: AuthMethod,
    pub client_secret: Option<String>,
}

/// Why client authentication failed.
#[derive(Clone, Copy, Debug, PartialEq, Eq, Structural)]
pub enum ClientAuthError {
    ClientNotFound,
    /// The client authenticated with another method than its registered one.
    MethodMismatch,
    InvalidSecret,
    /// JWT-based methods need the key store, which this check does not reach.
    UnsupportedMethod,
}

/// A request to the token endpoint, by grant type.
pub enum TokenRequest {
    AuthorizationCode { code: String, redirect_uri: String, code_verifier: Option<String> },
    RefreshToken { refresh_token: String },
    ClientCredentials,
}

/// Errors of the token endpoint (RFC 6749 section 5.2).
#[derive(Clone, Copy, Debug, PartialEq, Eq, Structural)]
pub enum TokenError {
    InvalidClient(ClientAuthError),
    InvalidGrant,
    InvalidRequest,
    UnauthorizedClient,
    UnsupportedGrantType,
}

impl TokenError {
    /// The `error` member of the JSON error body.
    pub fn error_code(&self) -> (r: &'static str)
        ensures
            r@ == token_error_code(*self),
    {
        match self {
            TokenError::InvalidClient(_) => "invalid_client",
            TokenError::InvalidGrant => "invalid_grant",
            TokenError::InvalidRequest => "invalid_request",
            TokenError::UnauthorizedClient => "unauthorized_client",
            TokenError::UnsupportedGrantType => "unsupported_grant_type",
        }
    }

    /// The HTTP status: 401 for failed client authentication, else 400.
    pub fn status_code(&self) -> (r: u16)
        ensures
            r == (if *self is InvalidClient {
                401u16
            } else {
                400u16
            }),
    {
        match self {
            TokenError::InvalidClient(_) => 401,
            _ => 400,
        }
    }
}

pub open spec fn token_error_code(e: TokenError) -> Seq<char> {
    match e {
        TokenError::InvalidClient(_) => "invalid_client"@,
        TokenError::InvalidGrant => "invalid_grant"@,
        TokenError::InvalidRequest => "invalid_request"@,
        TokenError::UnauthorizedClient => "unauthorized_client"@,
        TokenError::UnsupportedGrantType => "unsupported_grant_type"@,
    }
}

/// Outcome of checking presented credentials against a registered client.
pub open spec fn credentials_check(
    method: AuthMethod,
    secret: Option<String>,
    cred: ClientCredentials,
) -> Result<(), ClientAuthError> {
    if cred.method != method {
        Err(ClientAuthError::MethodMismatch)
    } else {
        match method {
            AuthMethod::NoAuthentication => Ok(()),
            AuthMethod::ClientSecretBasic | AuthMethod::ClientSecretPost => if secret is Some
                && cred.client_secret is Some && cred.client_secret->0@ == secret->0@ {
                Ok(())
            } else {
                Err(ClientAuthError::InvalidSecret)
            },
            _ => Err(ClientAuthError::UnsupportedMethod),
        }
    }
}

impl Store {
    /// The position of the client that the credentials name, once they
    /// check out.
    pub open spec fn client_auth_check(&self, cred: ClientCredentials) -> Result<
        int,
        ClientAuthError,
    > {
        if !(exists|i: int|
            0 <= i < self.clients@.len() && (#[trigger] self.clients@[i]).client_id@
                == cred.client_id@) {
            Err(ClientAuthError::ClientNotFound)
        } else {
            let c = choose|i: int|
                0 <= i < self.clients@.len() && (#[trigger] self.clients@[i]).client_id@
                    == cred.client_id@;
            match credentials_check(
                self.clients@[c].token_endpoint_auth_method,
                self.clients@[c].client_secret,
                cred,
            ) {
                Ok(()) => Ok(c),
                Err(e) => Err(e),
            }
        }
    }

    /// Authenticates a client at the token or introspection endpoint; the
    /// method must be the registered one.
    pub fn authenticate_client(&self, cred: &ClientCredentials) -> (r: Result<
        usize,
        ClientAuthError,
    >)
        requires
            self.wf(),
        ensures
            match self.client_auth_check(*cred) {
                Ok(c) => r == Ok::<usize, ClientAuthError>(c as usize),
                Err(e) => r == Err::<usize, ClientAuthError>(e),
            },
    {
        let c = match self.lookup_client(cred.client_id.as_str()) {
            Some(c) => c,
            None => return Err(ClientAuthError::ClientNotFound),
        };
        proof {
            let k = choose|i: int|
                0 <= i < self.clients@.len() && (#[trigger] self.clients@[i]).client_id@
                    == cred.client_id@;
            assert(k == c);
        }
        let client = &self.clients[c];
        if cred.method != client.token_endpoint_auth_method {
            return Err(ClientAuthError::MethodMismatch);
        }
        match client.token_endpoint_auth_method {
            AuthMethod::NoAuthentication => Ok(c),
            AuthMethod::ClientSecretBasic | AuthMethod::ClientSecretPost => {
                match (&client.client_secret, &cred.client_secret) {
                    (Some(expected), Some(given)) => {
                        if str_eq(expected.as_str(), given.as_str()) {
                            Ok(c)
                        } else {
                            Err(ClientAuthError::InvalidSecret)
                        }
                    },
                    _ => Err(ClientAuthError::InvalidSecret),
                }
            },
            _ => Err(ClientAuthError::UnsupportedMethod),
        }
    }

    /// The position of the grant holding this code.
    pub open spec fn grant_with_code(&self, code: Seq<char>) -> Option<int> {
        if exists|i: int|
            0 <= i < self.grants@.len() && holds_code(#[trigger] self.grants@[i], code) {
            Some(
                choose|i: int|
                    0 <= i < self.grants@.len() && holds_code(#[trigger] self.grants@[i], code),
            )
        } else {
            None
        }
    }

    /// Outcome of the checks of a code exchange: the grant and its session
    /// on success; on failure the error, and the session to revoke when the
    /// code is replayed.
    pub open spec fn exchange_check(
        &self,
        cred: ClientCredentials,
        code: Seq<char>,
        redirect_uri: Seq<char>,
        verifier: Option<Seq<char>>,
    ) -> Result<(int, u64), (TokenError, Option<u64>)> {
        match self.client_auth_check(cred) {
            Err(e) => Err((TokenError::InvalidClient(e), None)),
            Ok(_) => match self.grant_with_code(code) {
                None => Err((TokenError::InvalidGrant, None)),
                Some(i) => {
                    let g = self.grants@[i];
                    match g.stage {
                        GrantStage::Exchanged { session_id, .. } => Err(
                            (TokenError::InvalidGrant, Some(session_id)),
                        ),
                        GrantStage::Fulfilled { session_id, .. } => if redirect_uri
                            != g.redirect_uri@ {
                            Err((TokenError::InvalidGrant, None))
                        } else if g.code->0.pkce matches Some(p) && (verifier is None
                            || !pkce_verifies(p.challenge_method, p.challenge@, verifier->0)) {
                            Err((TokenError::InvalidGrant, None))
                        } else if g.client_id@ != cred.client_id@ {
                            Err((TokenError::InvalidGrant, None))
                        } else {
                            Ok((i, session_id))
                        },
                        _ => Err((TokenError::InvalidGrant, None)),
                    }
                },
            },
        }
    }

    /// Exchanges an authorization code for an access token and a refresh
    /// token. A code that was already exchanged is refused, and every token
    /// issued for its grant is revoked.
    pub fn exchange_code(
        &mut self,
        cred: &ClientCredentials,
        code: &str,
        redirect_uri: &str,
        verifier: Option<&str>,
        now: i64,
    ) -> (r: Result<TokenPair, TokenError>)
        requires
            old(self).wf(),
        ensures
            final(self).wf(),
            final(self).exchange_outcome(
                old(self),
                *cred,
                code@,
                redirect_uri@,
                crate::client::opt_view(verifier),
                now,
                r,
            ),
            final(self).users == old(self).users,
            final(self).browser_sessions == old(self).browser_sessions,
            final(self).clients == old(self).clients,
            final(self).consents == old(self).consents,
    {
        match self.authenticate_client(cred) {
            Err(e) => return Err(TokenError::InvalidClient(e)),
            Ok(_) => {},
        }
        let id = match self.lookup_grant_by_code(code) {
            Some(id) => id,
            None => return Err(TokenError::InvalidGrant),
        };
        let gi = match row_index(id, self.grants.len()) {
            Some(i) => i,
            None => return Err(TokenError::InvalidGrant),
        };
        assert(holds_code(self.grants@[gi as int], code@));
        proof {
            let k = choose|i: int|
                0 <= i < self.grants@.len() && holds_code(#[trigger] self.grants@[i], code@);
            assert(k == gi);
        }
        let (session_id, fulfilled_at) = match self.grants[gi].stage {
            GrantStage::Exchanged { session_id, .. } => {
                self.revoke_session(session_id, now);
                return Err(TokenError::InvalidGrant);
            },
            GrantStage::Fulfilled { session_id, fulfilled_at } => (session_id, fulfilled_at),
            _ => return Err(TokenError::InvalidGrant),
        };
        if !str_eq(redirect_uri, self.grants[gi].redirect_uri.as_str()) {
            return Err(TokenError::InvalidGrant);
        }
        let pkce_ok = match &self.grants[gi].code {
            Some(c) => match &c.pkce {
                Some(p) => match verifier {
                    Some(v) => p.verify(v),
                    None => false,
                },
                None => true,
            },
            None => true,
        };
        if !pkce_ok {
            return Err(TokenError::InvalidGrant);
        }
        if !str_eq(self.grants[gi].client_id.as_str(), cred.client_id.as_str()) {
            return Err(TokenError::InvalidGrant);
        }
        match self.exchange_grant(id, now) {
            Ok(()) => {},
            Err(_) => return Err(TokenError::InvalidGrant),
        }
        let (_, _, pair) = self.issue_token_pair(session_id, now);
        Ok(pair)
    }
}

impl Store {
    /// What a code exchange leaves behind, from its checks: nothing on a
    /// plain refusal; the session revoked on a replayed code; otherwise the
    /// grant Exchanged and a new pair of tokens.
    pub open spec fn exchange_outcome(
        &self,
        old: &Store,
        cred: ClientCredentials,
        code: Seq<char>,
        redirect_uri: Seq<char>,
        verifier: Option<Seq<char>>,
        now: i64,
        r: Result<TokenPair, TokenError>,
    ) -> bool {
        let chk = old.exchange_check(cred, code, redirect_uri, verifier);
        &&& (chk matches Err((e, None)) ==> r == Err::<TokenPair, TokenError>(e) && *self == *old)
        &&& (chk matches Err((e, Some(s))) ==> r == Err::<TokenPair, TokenError>(e)
            && self.session_revoked(old, s))
        &&& (chk matches Ok((gi, s)) ==> r is Ok && self.grants@ == old.grants@.update(
            gi,
            AuthorizationGrant {
                stage: GrantStage::Exchanged {
                    session_id: s,
                    fulfilled_at: old.grants@[gi].stage->Fulfilled_fulfilled_at,
                    exchanged_at: now,
                },
                ..old.grants@[gi]
            },
        ) && self.pair_appended(old, s, now, r->Ok_0))
    }

    /// What a refresh leaves behind, from its checks: nothing on a plain
    /// refusal; the session revoked on a replayed token; otherwise the
    /// presented token consumed and chained, its access token revoked, and a
    /// new pair issued in the same session.
    pub open spec fn refresh_outcome(
        &self,
        old: &Store,
        cred: ClientCredentials,
        token: Seq<char>,
        now: i64,
        r: Result<TokenPair, TokenError>,
    ) -> bool {
        let chk = old.refresh_check(cred, token);
        &&& (chk matches Err((e, None)) ==> r == Err::<TokenPair, TokenError>(e) && *self == *old)
        &&& (chk matches Err((e, Some(s))) ==> r == Err::<TokenPair, TokenError>(e)
            && self.session_revoked(old, s))
        &&& (chk matches Ok(i) ==> {
            let old_rt = old.refresh_tokens@[i];
            let old_at = old.access_tokens@[old_rt.access_token_id as int];
            let n = old.refresh_tokens@.len();
            let m = old.access_tokens@.len();
            &&& r is Ok
            &&& self.refresh_tokens@[i] == RefreshToken {
                consumed_at: Some(now),
                next_refresh_token_id: Some(n as u64),
                ..old_rt
            }
            &&& self.access_tokens@[old_rt.access_token_id as int] == AccessToken {
                revoked_at: self.access_tokens@[old_rt.access_token_id as int].revoked_at,
                ..old_at
            }
            &&& self.access_tokens@[old_rt.access_token_id as int].revoked_at is Some
            &&& self.access_tokens@.len() == m + 1
            &&& self.refresh_tokens@.len() == n + 1
            &&& self.access_tokens@[m as int] == AccessToken {
                id: m as u64,
                session_id: old_rt.session_id,
                token: r->Ok_0.access_token,
                created_at: now,
                expires_after: crate::ledger::ACCESS_TOKEN_TTL,
                revoked_at: None,
            }
            &&& self.refresh_tokens@[n as int] == RefreshToken {
                id: n as u64,
                session_id: old_rt.session_id,
                access_token_id: m as u64,
                token: r->Ok_0.refresh_token,
                created_at: now,
                consumed_at: None,
                next_refresh_token_id: None,
            }
            &&& r->Ok_0.expires_in == crate::ledger::ACCESS_TOKEN_TTL
            &&& classify(r->Ok_0.access_token@) == Ok::<TokenType, TokenFormatError>(
                TokenType::AccessToken,
            )
            &&& classify(r->Ok_0.refresh_token@) == Ok::<TokenType, TokenFormatError>(
                TokenType::RefreshToken,
            )
            &&& forall|k: int|
                0 <= k < n && k != i ==> #[trigger] self.refresh_tokens@[k]
                    == old.refresh_tokens@[k]
            &&& forall|k: int|
                0 <= k < m && k != old_rt.access_token_id ==> #[trigger] self.access_tokens@[k]
                    == old.access_tokens@[k]
            &&& self.oauth_sessions == old.oauth_sessions
            &&& self.same_but_ledger(old)
        })
    }
}

/// Whether a grant holds this authorization code.
pub open spec fn holds_code(g: AuthorizationGrant, code: Seq<char>) -> bool {
    g.code is Some && g.code->0.code@ == code
}

impl Store {
    /// The first refresh token with this text.
    pub open spec fn refresh_with_token(&self, token: Seq<char>) -> Option<int> {
        if exists|i: int|
            0 <= i < self.refresh_tokens@.len() && (#[trigger] self.refresh_tokens@[i]).token@
                == token {
            Some(
                choose|i: int|
                    0 <= i < self.refresh_tokens@.len() && (#[trigger] self.refresh_tokens@[i]).token@
                        == token && forall|j: int|
                        0 <= j < i ==> self.refresh_tokens@[j].token@ != token,
            )
        } else {
            None
        }
    }

    /// Outcome of the checks of a refresh: the refresh token's position on
    /// success; on failure the error, and the session to revoke when a
    /// consumed token is replayed.
    pub open spec fn refresh_check(&self, cred: ClientCredentials, token: Seq<char>) -> Result<
        int,
        (TokenError, Option<u64>),
    > {
        match self.client_auth_check(cred) {
            Err(e) => Err((TokenError::InvalidClient(e), None)),
            Ok(_) => if classify(token) != Ok::<TokenType, TokenFormatError>(
                TokenType::RefreshToken,
            ) {
                Err((TokenError::InvalidGrant, None))
            } else {
                match self.refresh_with_token(token) {
                    None => Err((TokenError::InvalidGrant, None)),
                    Some(i) => {
                        let rt = self.refresh_tokens@[i];
                        if self.oauth_sessions@[rt.session_id as int].client_id@
                            != cred.client_id@ {
                            Err((TokenError::InvalidGrant, None))
                        } else if rt.consumed_at is Some {
                            Err((TokenError::InvalidGrant, Some(rt.session_id)))
                        } else if !self.session_active(rt.session_id) {
                            Err((TokenError::InvalidGrant, None))
                        } else {
                            Ok(i)
                        }
                    },
                }
            },
        }
    }

    /// Rotates a refresh token: the presented token is consumed and its
    /// access token revoked, a new pair is issued in the same session and
    /// chained to it. Presenting a consumed token again revokes every token
    /// of its session.
    pub fn refresh(&mut self, cred: &ClientCredentials, token: &str, now: i64) -> (r: Result<
        TokenPair,
        TokenError,
    >)
        requires
            old(self).wf(),
        ensures
            final(self).wf(),
            final(self).refresh_outcome(old(self), *cred, token@, now, r),
            final(self).users == old(self).users,
            final(self).browser_sessions == old(self).browser_sessions,
            final(self).clients == old(self).clients,
            final(self).consents == old(self).consents,
            final(self).grants == old(self).grants,
    {
        match self.authenticate_client(cred) {
            Err(e) => return Err(TokenError::InvalidClient(e)),
            Ok(_) => {},
        }
        match TokenType::check(token) {
            Ok(TokenType::RefreshToken) => {},
            _ => return Err(TokenError::InvalidGrant),
        }
        let i = match self.find_refresh_token(token) {
            Some(i) => i,
            None => return Err(TokenError::InvalidGrant),
        };
        proof {
            let k = choose|k: int|
                0 <= k < self.refresh_tokens@.len() && (#[trigger] self.refresh_tokens@[k]).token@
                    == token@ && forall|j: int|
                    0 <= j < k ==> self.refresh_tokens@[j].token@ != token@;
            if k > i {
                assert(self.refresh_tokens@[i as int].token@ == token@);
            }
            assert(k == i);
        }
        let session_id = self.refresh_tokens[i].session_id;
        let s = match row_index(session_id, self.oauth_sessions.len()) {
            Some(s) => s,
            None => return Err(TokenError::InvalidGrant),
        };
        if !str_eq(self.oauth_sessions[s].client_id.as_str(), cred.client_id.as_str()) {
            return Err(TokenError::InvalidGrant);
        }
        if self.refresh_tokens[i].consumed_at.is_some() {
            self.revoke_session(session_id, now);
            return Err(TokenError::InvalidGrant);
        }
        if !self.session_is_active(session_id) {
            return Err(TokenError::InvalidGrant);
        }
        let old_access = self.refresh_tokens[i].access_token_id;
        let (_, new_refresh, pair) = self.issue_token_pair(session_id, now);
        let ghost before = *self;
        assert(before.refresh_tokens@[i as int] == old(self).refresh_tokens@[i as int]);
        self.refresh_tokens[i].consumed_at = Some(now);
        self.refresh_tokens[i].next_refresh_token_id = Some(new_refresh);
        let a = match row_index(old_access, self.access_tokens.len()) {
            Some(a) => a,
            None => return Ok(pair),
        };
        if self.access_tokens[a].revoked_at.is_none() {
            self.access_tokens[a].revoked_at = Some(now);
        }
        proof {
            assert forall|k: int|
                0 <= k < self.refresh_tokens@.len() implies {
                    let rt = #[trigger] self.refresh_tokens@[k];
                    &&& rt.id == k
                    &&& rt.session_id < self.oauth_sessions@.len()
                    &&& rt.access_token_id < self.access_tokens@.len()
                    &&& self.access_tokens@[rt.access_token_id as int].session_id == rt.session_id
                    &&& (rt.next_refresh_token_id matches Some(n) ==> k < n
                        < self.refresh_tokens@.len() && rt.consumed_at is Some)
                } by {
                let rt = self.refresh_tokens@[k];
                let b = before.refresh_tokens@[k];
                assert(rt.access_token_id == b.access_token_id);
                assert(self.access_tokens@[rt.access_token_id as int].session_id
                    == before.access_tokens@[rt.access_token_id as int].session_id);
            }
        }
        Ok(pair)
    }
}

/// Along any chain of refresh tokens, each linked to its replacement, at
/// most one token is unconsumed: every token but the last has been
/// replaced, and a replaced token is consumed.
pub proof fn lemma_chain_single_unconsumed(store: &Store, chain: Seq<u64>)
    requires
        store.wf(),
        forall|k: int| 0 <= k < chain.len() ==> #[trigger] chain[k] < store.refresh_tokens@.len(),
        forall|k: int|
            0 <= k < chain.len() - 1 ==> store.refresh_tokens@[#[trigger] chain[k] as int].next_refresh_token_id
                == Some(chain[k + 1]),
    ensures
        forall|a: int, b: int|
            0 <= a < b < chain.len() ==> !(store.refresh_tokens@[#[trigger] chain[a] as int].consumed_at is None
                && store.refresh_tokens@[#[trigger] chain[b] as int].consumed_at is None),
{
    assert forall|a: int, b: int|
        0 <= a < b < chain.len() implies !(store.refresh_tokens@[#[trigger] chain[a] as int].consumed_at is None
        && store.refresh_tokens@[#[trigger] chain[b] as int].consumed_at is None) by {
        assert(store.refresh_tokens@[chain[a] as int].next_refresh_token_id == Some(chain[a + 1]));
    }
}

pub open spec fn opt_string_text(o: Option<String>) -> Option<Seq<char>> {
    match o {
        Some(s) => Some(s@),
        None => None,
    }
}

impl Store {
    /// Serves a token request: code exchange and refresh as above; the
    /// client-credentials grant is not offered.
    pub fn token(&mut self, cred: &ClientCredentials, req: TokenRequest, now: i64) -> (r: Result<
        TokenPair,
        TokenError,
    >)
        requires
            old(self).wf(),
        ensures
            final(self).wf(),
            req is ClientCredentials ==> r == Err::<TokenPair, TokenError>(
                TokenError::UnsupportedGrantType,
            ) && *final(self) == *old(self),
            req matches TokenRequest::AuthorizationCode { code, redirect_uri, code_verifier }
                ==> final(self).exchange_outcome(
                old(self),
                *cred,
                code@,
                redirect_uri@,
                opt_string_text(code_verifier),
                now,
                r,
            ),
            req matches TokenRequest::RefreshToken { refresh_token } ==> final(self).refresh_outcome(
                old(self),
                *cred,
                refresh_token@,
                now,
                r,
            ),
    {
        match req {
            TokenRequest::AuthorizationCode { code, redirect_uri, code_verifier } => {
                let verifier = match &code_verifier {
                    Some(v) => Some(v.as_str()),
                    None => None,
                };
                proof {
                    assert(crate::client::opt_view(verifier) == opt_string_text(code_verifier));
                }
                self.exchange_code(cred, code.as_str(), redirect_uri.as_str(), verifier, now)
            },
            TokenRequest::RefreshToken { refresh_token } => {
                self.refresh(cred, refresh_token.as_str(), now)
            },
            TokenRequest::ClientCredentials => Err(TokenError::UnsupportedGrantType),
        }
    }
}

} // verus!
