use vstd::prelude::*;

use crate::model::row_index;
use crate::store::{AccessToken, OAuthSession, RefreshToken, Store};
use crate::text::str_eq;
use crate::token::{classify, TokenFormatError, TokenType};

verus! {

/// Lifetime of an access token, in seconds.
pub const ACCESS_TOKEN_TTL: i64 = 300;

/// The access and refresh tokens handed to a client.
pub struct TokenPair {
    pub access_token: String,
    pub refresh_token: String,
    pub expires_in: i64,
}

impl Store {
    /// Whether an OAuth session and the browser session behind it are both
    /// still running.
    pub open spec fn session_active(&self, s: u64) -> bool {
        &&& s < self.oauth_sessions@.len()
        &&& self.oauth_sessions@[s as int].finished_at is None
        &&& self.browser_sessions@[self.oauth_sessions@[s as int].browser_session_id as int].finished_at is None
    }

    /// Whether the access token at position `i` is usable at `now`: not
    /// revoked and not expired. Revoking its OAuth session revokes it.
    pub open spec fn access_active(&self, i: int, now: i64) -> bool {
        let t = self.access_tokens@[i];
        &&& 0 <= i < self.access_tokens@.len()
        &&& t.revoked_at is None
        &&& now < t.created_at + t.expires_after
    }

    /// Whether the refresh token at position `i` is usable.
    pub open spec fn refresh_active(&self, i: int) -> bool {
        let t = self.refresh_tokens@[i];
        &&& 0 <= i < self.refresh_tokens@.len()
        &&& t.consumed_at is None
        &&& self.session_active(t.session_id)
    }

    /// Whether the tables other than the token ledger are as in `other`.
    pub open spec fn same_but_ledger(&self, other: &Store) -> bool {
        &&& self.users == other.users
        &&& self.browser_sessions == other.browser_sessions
        &&& self.authentications == other.authentications
        &&& self.clients == other.clients
        &&& self.consents == other.consents
        &&& self.grants == other.grants
    }

    /// Whether `self` is `old` with one access token and one refresh token
    /// bound to it appended, both issued at `now` in the given session, with
    /// the texts handed out in `pair`.
    pub open spec fn pair_appended(&self, old: &Store, session_id: u64, now: i64, pair: TokenPair) -> bool {
        let a = old.access_tokens@.len();
        let n = old.refresh_tokens@.len();
        &&& self.access_tokens@ == old.access_tokens@.push(
            AccessToken {
                id: a as u64,
                session_id,
                token: pair.access_token,
                created_at: now,
                expires_after: ACCESS_TOKEN_TTL,
                revoked_at: None,
            },
        )
        &&& self.refresh_tokens@ == old.refresh_tokens@.push(
            RefreshToken {
                id: n as u64,
                session_id,
                access_token_id: a as u64,
                token: pair.refresh_token,
                created_at: now,
                consumed_at: None,
                next_refresh_token_id: None,
            },
        )
        &&& pair.expires_in == ACCESS_TOKEN_TTL
        &&& classify(pair.access_token@) == Ok::<TokenType, TokenFormatError>(
            TokenType::AccessToken,
        )
        &&& classify(pair.refresh_token@) == Ok::<TokenType, TokenFormatError>(
            TokenType::RefreshToken,
        )
    }

    /// Whether `self` is `old` with the OAuth session `session_id` ended and
    /// every token issued in it revoked (access) or consumed (refresh); every
    /// token keeps its text, session, times and links.
    pub open spec fn session_revoked(&self, old: &Store, session_id: u64) -> bool {
        &&& self.oauth_sessions@[session_id as int].finished_at is Some
        &&& forall|s: int|
            0 <= s < self.oauth_sessions@.len() && s != session_id ==> (
            #[trigger] self.oauth_sessions@[s]) == old.oauth_sessions@[s]
        &&& self.oauth_sessions@.len() == old.oauth_sessions@.len()
        &&& self.access_tokens@.len() == old.access_tokens@.len()
        &&& self.refresh_tokens@.len() == old.refresh_tokens@.len()
        &&& forall|i: int|
            0 <= i < self.access_tokens@.len() ==> {
                let t = #[trigger] self.access_tokens@[i];
                let o = old.access_tokens@[i];
                &&& t.id == o.id
                &&& t.session_id == o.session_id
                &&& t.token == o.token
                &&& t.created_at == o.created_at
                &&& t.expires_after == o.expires_after
                &&& (t.session_id == session_id ==> t.revoked_at is Some)
                &&& (t.session_id != session_id ==> t.revoked_at == o.revoked_at)
            }
        &&& forall|i: int|
            0 <= i < self.refresh_tokens@.len() ==> {
                let t = #[trigger] self.refresh_tokens@[i];
                let o = old.refresh_tokens@[i];
                &&& t.id == o.id
                &&& t.session_id == o.session_id
                &&& t.token == o.token
                &&& t.created_at == o.created_at
                &&& t.access_token_id == o.access_token_id
                &&& t.next_refresh_token_id == o.next_refresh_token_id
                &&& (t.session_id == session_id ==> t.consumed_at is Some)
                &&& (t.session_id != session_id ==> t.consumed_at == o.consumed_at)
            }
        &&& self.same_but_ledger(old)
    }

    pub(crate) fn session_is_active(&self, s: u64) -> (r: bool)
        requires
            self.wf(),
        ensures
            r == self.session_active(s),
    {
        match row_index(s, self.oauth_sessions.len()) {
            None => false,
            Some(i) => {
                let bs = match row_index(
                    self.oauth_sessions[i].browser_session_id,
                    self.browser_sessions.len(),
                ) {
                    Some(b) => b,
                    None => return false,
                };
                self.oauth_sessions[i].finished_at.is_none()
                    && self.browser_sessions[bs].finished_at.is_none()
            },
        }
    }

    /// Starts an OAuth session for a client inside an active browser session.
    pub(crate) fn derive_session(
        &mut self,
        browser_session_id: u64,
        client_id: &String,
        scope: &Vec<String>,
        now: i64,
    ) -> (r: u64)
        requires
            old(self).wf(),
            browser_session_id < old(self).browser_sessions@.len(),
        ensures
            final(self).wf(),
            r == old(self).oauth_sessions@.len(),
            final(self).oauth_sessions@.len() == r + 1,
            final(self).oauth_sessions@.drop_last() == old(self).oauth_sessions@,
            final(self).oauth_sessions@[r as int].browser_session_id == browser_session_id,
            final(self).oauth_sessions@[r as int].client_id@ == client_id@,
            final(self).oauth_sessions@[r as int].scope@ == scope@,
            final(self).oauth_sessions@[r as int].finished_at is None,
            final(self).same_but_ledger(old(self)),
            final(self).access_tokens == old(self).access_tokens,
            final(self).refresh_tokens == old(self).refresh_tokens,
    {
        let id = self.oauth_sessions.len() as u64;
        let owned_scope = crate::scope::clone_scope(scope);
        self.oauth_sessions.push(
            OAuthSession {
                id,
                browser_session_id,
                client_id: client_id.clone(),
                scope: owned_scope,
                created_at: now,
                finished_at: None,
            },
        );
        proof {
            assert(self.oauth_sessions@.drop_last() =~= old(self).oauth_sessions@);
            assert forall|g: int|
                0 <= g < self.grants@.len() && (#[trigger] crate::store::stage_session(
                    self.grants@[g].stage,
                )) is Some implies self.session_user(
                crate::store::stage_session(self.grants@[g].stage)->0,
            ) == old(self).session_user(crate::store::stage_session(self.grants@[g].stage)->0) by {
                let s = crate::store::stage_session(self.grants@[g].stage)->0;
                assert(self.oauth_sessions@[s as int] == old(self).oauth_sessions@[s as int]);
            }
        }
        id
    }

    /// Issues an access token for an OAuth session, valid `ttl` seconds from
    /// `now`.
    pub fn issue_access_token(&mut self, session_id: u64, ttl: i64, now: i64) -> (r: (u64, String))
        requires
            old(self).wf(),
            session_id < old(self).oauth_sessions@.len(),
        ensures
            final(self).wf(),
            r.0 == old(self).access_tokens@.len(),
            final(self).access_tokens@ == old(self).access_tokens@.push(
                AccessToken {
                    id: r.0,
                    session_id,
                    token: r.1,
                    created_at: now,
                    expires_after: ttl,
                    revoked_at: None,
                },
            ),
            classify(r.1@) == Ok::<TokenType, TokenFormatError>(TokenType::AccessToken),
            final(self).same_but_ledger(old(self)),
            final(self).oauth_sessions == old(self).oauth_sessions,
            final(self).refresh_tokens == old(self).refresh_tokens,
    {
        let id = self.access_tokens.len() as u64;
        let token = TokenType::AccessToken.generate_with_id(id);
        self.access_tokens.push(
            AccessToken {
                id,
                session_id,
                token: token.clone(),
                created_at: now,
                expires_after: ttl,
                revoked_at: None,
            },
        );
        (id, token)
    }

    /// Issues a refresh token bound to an access token of the same session.
    pub fn issue_refresh_token(&mut self, access_token_id: u64, now: i64) -> (r: (u64, String))
        requires
            old(self).wf(),
            access_token_id < old(self).access_tokens@.len(),
        ensures
            final(self).wf(),
            r.0 == old(self).refresh_tokens@.len(),
            final(self).refresh_tokens@ == old(self).refresh_tokens@.push(
                RefreshToken {
                    id: r.0,
                    session_id: old(self).access_tokens@[access_token_id as int].session_id,
                    access_token_id,
                    token: r.1,
                    created_at: now,
                    consumed_at: None,
                    next_refresh_token_id: None,
                },
            ),
            classify(r.1@) == Ok::<TokenType, TokenFormatError>(TokenType::RefreshToken),
            final(self).same_but_ledger(old(self)),
            final(self).oauth_sessions == old(self).oauth_sessions,
            final(self).access_tokens == old(self).access_tokens,
    {
        let id = self.refresh_tokens.len() as u64;
        let token = TokenType::RefreshToken.generate_with_id(id);
        let at = match row_index(access_token_id, self.access_tokens.len()) {
            Some(a) => a,
            None => return (id, token),
        };
        let session_id = self.access_tokens[at].session_id;
        self.refresh_tokens.push(
            RefreshToken {
                id,
                session_id,
                access_token_id,
                token: token.clone(),
                created_at: now,
                consumed_at: None,
                next_refresh_token_id: None,
            },
        );
        (id, token)
    }

    /// Issues an access token and a refresh token bound to it.
    pub fn issue_token_pair(&mut self, session_id: u64, now: i64) -> (r: (u64, u64, TokenPair))
        requires
            old(self).wf(),
            session_id < old(self).oauth_sessions@.len(),
        ensures
            final(self).wf(),
            r.0 == old(self).access_tokens@.len(),
            r.1 == old(self).refresh_tokens@.len(),
            final(self).access_tokens@ == old(self).access_tokens@.push(
                AccessToken {
                    id: r.0,
                    session_id,
                    token: r.2.access_token,
                    created_at: now,
                    expires_after: ACCESS_TOKEN_TTL,
                    revoked_at: None,
                },
            ),
            final(self).refresh_tokens@ == old(self).refresh_tokens@.push(
                RefreshToken {
                    id: r.1,
                    session_id,
                    access_token_id: r.0,
                    token: r.2.refresh_token,
                    created_at: now,
                    consumed_at: None,
                    next_refresh_token_id: None,
                },
            ),
            r.2.expires_in == ACCESS_TOKEN_TTL,
            classify(r.2.access_token@) == Ok::<TokenType, TokenFormatError>(
                TokenType::AccessToken,
            ),
            classify(r.2.refresh_token@) == Ok::<TokenType, TokenFormatError>(
                TokenType::RefreshToken,
            ),
            final(self).pair_appended(old(self), session_id, now, r.2),
            final(self).same_but_ledger(old(self)),
            final(self).oauth_sessions == old(self).oauth_sessions,
    {
        let (access_id, access_token) = self.issue_access_token(session_id, ACCESS_TOKEN_TTL, now);
        let (refresh_id, refresh_token) = self.issue_refresh_token(access_id, now);
        (
            access_id,
            refresh_id,
            TokenPair { access_token, refresh_token, expires_in: ACCESS_TOKEN_TTL },
        )
    }

    /// Ends an OAuth session and revokes every token issued in it.
    pub fn revoke_session(&mut self, session_id: u64, now: i64)
        requires
            old(self).wf(),
            session_id < old(self).oauth_sessions@.len(),
        ensures
            final(self).wf(),
            final(self).session_revoked(old(self), session_id),
            final(self).same_but_ledger(old(self)),
    {
        let s = match row_index(session_id, self.oauth_sessions.len()) {
            Some(s) => s,
            None => return,
        };
        if self.oauth_sessions[s].finished_at.is_none() {
            self.oauth_sessions[s].finished_at = Some(now);
        }
        proof {
            assert forall|g: int|
                0 <= g < self.grants@.len() && (#[trigger] crate::store::stage_session(
                    self.grants@[g].stage,
                )) is Some implies self.session_user(
                crate::store::stage_session(self.grants@[g].stage)->0,
            ) == old(self).session_user(crate::store::stage_session(self.grants@[g].stage)->0) by {
                let t = crate::store::stage_session(self.grants@[g].stage)->0;
                assert(self.oauth_sessions@[t as int].browser_session_id == old(
                    self,
                ).oauth_sessions@[t as int].browser_session_id);
            }
        }
        let ghost mid = *self;
        let mut i: usize = 0;
        while i < self.access_tokens.len()
            invariant
                self.wf(),
                i <= self.access_tokens@.len(),
                self.same_but_ledger(&mid),
                self.oauth_sessions == mid.oauth_sessions,
                self.refresh_tokens == mid.refresh_tokens,
                self.access_tokens@.len() == mid.access_tokens@.len(),
                forall|k: int|
                    0 <= k < self.access_tokens@.len() ==> {
                        let t = #[trigger] self.access_tokens@[k];
                        let o = mid.access_tokens@[k];
                        &&& t.id == o.id
                        &&& t.session_id == o.session_id
                        &&& t.token == o.token
                        &&& t.created_at == o.created_at
                        &&& t.expires_after == o.expires_after
                        &&& (k < i && t.session_id == session_id ==> t.revoked_at is Some)
                        &&& (!(k < i && t.session_id == session_id) ==> t.revoked_at
                            == o.revoked_at)
                    },
            decreases self.access_tokens@.len() - i,
        {
            if self.access_tokens[i].session_id == session_id && self.access_tokens[i].revoked_at.is_none() {
                self.access_tokens[i].revoked_at = Some(now);
            }
            i = i + 1;
        }
        let ghost mid2 = *self;
        let mut j: usize = 0;
        while j < self.refresh_tokens.len()
            invariant
                self.wf(),
                j <= self.refresh_tokens@.len(),
                self.same_but_ledger(&mid2),
                self.oauth_sessions == mid2.oauth_sessions,
                self.access_tokens == mid2.access_tokens,
                self.refresh_tokens@.len() == mid2.refresh_tokens@.len(),
                forall|k: int|
                    0 <= k < self.refresh_tokens@.len() ==> {
                        let t = #[trigger] self.refresh_tokens@[k];
                        let o = mid2.refresh_tokens@[k];
                        &&& t.id == o.id
                        &&& t.session_id == o.session_id
                        &&& t.token == o.token
                        &&& t.created_at == o.created_at
                        &&& t.access_token_id == o.access_token_id
                        &&& t.next_refresh_token_id == o.next_refresh_token_id
                        &&& (k < j && t.session_id == session_id ==> t.consumed_at is Some)
                        &&& (!(k < j && t.session_id == session_id) ==> t.consumed_at
                            == o.consumed_at)
                    },
            decreases self.refresh_tokens@.len() - j,
        {
            if self.refresh_tokens[j].session_id == session_id && self.refresh_tokens[j].consumed_at.is_none() {
                self.refresh_tokens[j].consumed_at = Some(now);
            }
            j = j + 1;
        }
    }

    /// The position of the access token with this text.
    pub fn find_access_token(&self, token: &str) -> (r: Option<usize>)
        ensures
            r matches Some(i) ==> i < self.access_tokens@.len() && self.access_tokens@[i as int].token@
                == token@ && forall|j: int|
                0 <= j < i ==> (#[trigger] self.access_tokens@[j]).token@ != token@,
            r is None ==> forall|i: int|
                0 <= i < self.access_tokens@.len() ==> (#[trigger] self.access_tokens@[i]).token@
                    != token@,
    {
        let mut i: usize = 0;
        while i < self.access_tokens.len()
            invariant
                i <= self.access_tokens@.len(),
                forall|j: int|
                    0 <= j < i ==> (#[trigger] self.access_tokens@[j]).token@ != token@,
            decreases self.access_tokens@.len() - i,
        {
            if str_eq(self.access_tokens[i].token.as_str(), token) {
                return Some(i);
            }
            i = i + 1;
        }
        None
    }

    /// The position of the refresh token with this text.
    pub fn find_refresh_token(&self, token: &str) -> (r: Option<usize>)
        ensures
            r matches Some(i) ==> i < self.refresh_tokens@.len() && self.refresh_tokens@[i as int].token@
                == token@ && forall|j: int|
                0 <= j < i ==> (#[trigger] self.refresh_tokens@[j]).token@ != token@,
            r is None ==> forall|i: int|
                0 <= i < self.refresh_tokens@.len() ==> (#[trigger] self.refresh_tokens@[i]).token@
                    != token@,
    {
        let mut i: usize = 0;
        while i < self.refresh_tokens.len()
            invariant
                i <= self.refresh_tokens@.len(),
                forall|j: int|
                    0 <= j < i ==> (#[trigger] self.refresh_tokens@[j]).token@ != token@,
            decreases self.refresh_tokens@.len() - i,
        {
            if str_eq(self.refresh_tokens[i].token.as_str(), token) {
                return Some(i);
            }
            i = i + 1;
        }
        None
    }

    /// The access token with this text, if it is usable at `now`.
    pub fn lookup_active_access_token(&self, token: &str, now: i64) -> (r: Option<usize>)
        requires
            self.wf(),
        ensures
            r matches Some(i) ==> self.access_tokens@[i as int].token@ == token@
                && self.access_active(i as int, now),
            r is None ==> forall|i: int|
                0 <= i < self.access_tokens@.len() && (#[trigger] self.access_tokens@[i]).token@
                    == token@ ==> !self.access_active(i, now) || exists|j: int|
                    0 <= j < i && self.access_tokens@[j].token@ == token@,
    {
        let i = match self.find_access_token(token) {
            Some(i) => i,
            None => return None,
        };
        let t = &self.access_tokens[i];
        if t.revoked_at.is_none() && (now as i128) < t.created_at as i128 + t.expires_after as i128 {
            Some(i)
        } else {
            None
        }
    }

    /// The refresh token with this text, if it is usable.
    pub fn lookup_active_refresh_token(&self, token: &str) -> (r: Option<usize>)
        requires
            self.wf(),
        ensures
            r matches Some(i) ==> self.refresh_tokens@[i as int].token@ == token@
                && self.refresh_active(i as int),
            r is None ==> forall|i: int|
                0 <= i < self.refresh_tokens@.len() && (#[trigger] self.refresh_tokens@[i]).token@
                    == token@ ==> !self.refresh_active(i) || exists|j: int|
                    0 <= j < i && self.refresh_tokens@[j].token@ == token@,
    {
        let i = match self.find_refresh_token(token) {
            Some(i) => i,
            None => return None,
        };
        let t = &self.refresh_tokens[i];
        if t.consumed_at.is_none() && self.session_is_active(t.session_id) {
            Some(i)
        } else {
            None
        }
    }
}

} // verus!
