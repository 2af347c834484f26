use argon2::{PasswordHasher, PasswordVerifier};
use vstd::prelude::*;
use vstd::string::StringSliceAdditionalSpecFns;

use crate::client::Client;
use crate::model::{row_index, Authentication, AuthorizationGrant, BrowserSession, GrantStage, User};
use crate::scope::scope_set;
use crate::token::{carries_id, classify, lemma_carried_id_unique, TokenFormatError, TokenType};

verus! {

/// Name of the outcome of checking a password against a stored Argon2
/// hash in PHC string format.
pub uninterp spec fn password_verifies(hash: Seq<char>, password: Seq<char>) -> bool;

/// Relies on `argon2::Argon2::hash_password` (Argon2id, default parameters)
/// with a salt from `SaltString::generate` over the OS RNG: a hash that it
/// returns verifies against the password it was made from. With a generated
/// salt and the default parameters it fails only on a password longer than
/// `argon2::MAX_PWD_LEN` bytes.
#[verifier::external_body]
fn hash_password(password: &str) -> (r: Option<String>)
    ensures
        r matches Some(h) ==> password_verifies(h@, password@),
        password.spec_bytes().len() <= MAX_PASSWORD_BYTES ==> r is Some,
{
    let salt = argon2::password_hash::SaltString::generate(&mut rand::rngs::OsRng);
    argon2::Argon2::default().hash_password(password.as_bytes(), &salt).ok().map(|h| h.to_string())
}

/// Relies on `argon2::Argon2::verify_password` after `PasswordHash::new`:
/// whether the password matches the hash; an unreadable hash matches
/// nothing. The outcome depends on the two texts alone.
#[verifier::external_body]
fn verify_password(hash: &str, password: &str) -> (r: bool)
    ensures
        r == password_verifies(hash@, password@),
{
    match argon2::PasswordHash::new(hash) {
        Ok(h) => argon2::Argon2::default().verify_password(password.as_bytes(), &h).is_ok(),
        Err(_) => false,
    }
}

/// The longest password, in UTF-8 bytes, that Argon2 accepts.
pub const MAX_PASSWORD_BYTES: usize = 0xFFFF_FFFF;

/// A hash compared against when the user is unknown, so that an unknown
/// user costs as much as a wrong password.
pub const DUMMY_PASSWORD_HASH: &'static str = "$argon2id$v=19$m=19456,t=2,p=1$c29tZXNhbHRzb21lc2FsdA$8i4SyQ/q/VLZnzhE0cBKAg3lJjmSGdcGGeVEBvVdQGk";

/// A per-client session derived from a browser session when a grant is
/// fulfilled; it owns the tokens issued for the grant.
#[derive(Clone, Debug)]
pub struct OAuthSession {
    pub id: u64,
    pub browser_session_id: u64,
    pub client_id: String,
    pub scope: Vec<String>,
    pub created_at: i64,
    pub finished_at: Option<i64>,
}

/// An issued access token.
#[derive(Clone, Debug)]
pub struct AccessToken {
    pub id: u64,
    pub session_id: u64,
    pub token: String,
    pub created_at: i64,
    pub expires_after: i64,
    pub revoked_at: Option<i64>,
}

/// An issued refresh token; single use, chained to its replacement.
#[derive(Clone, Debug)]
pub struct RefreshToken {
    pub id: u64,
    pub session_id: u64,
    pub access_token_id: u64,
    pub token: String,
    pub created_at: i64,
    pub consumed_at: Option<i64>,
    pub next_refresh_token_id: Option<u64>,
}

/// One scope token that a user granted to a client.
#[derive(Clone, Debug)]
pub struct ConsentEntry {
    pub user_id: u64,
    pub client_id: String,
    pub scope: String,
}

/// A recorded authentication event.
#[derive(Clone, Copy, Debug)]
pub struct AuthenticationRecord {
    pub id: u64,
    pub session_id: u64,
    pub created_at: i64,
}

/// Why a user could not be registered.
#[derive(Clone, Copy, Debug, PartialEq, Eq, Structural)]
pub enum RegisterError {
    UsernameTaken,
    HashingFailed,
}

/// Why a password check failed.
#[derive(Clone, Copy, Debug, PartialEq, Eq, Structural)]
pub enum AuthenticationError {
    /// Unknown user or wrong password.
    InvalidCredentials,
    /// No such browser session, or it has ended.
    InactiveSession,
}

/// Why a client could not be registered.
#[derive(Clone, Copy, Debug, PartialEq, Eq, Structural)]
pub enum ClientRegistrationError {
    AlreadyRegistered,
}

/// The whole state of the authorization server: every table, each row's
/// id being its position.
pub struct Store {
    pub users: Vec<User>,
    pub browser_sessions: Vec<BrowserSession>,
    pub authentications: Vec<AuthenticationRecord>,
    pub clients: Vec<Client>,
    pub consents: Vec<ConsentEntry>,
    pub grants: Vec<AuthorizationGrant>,
    pub oauth_sessions: Vec<OAuthSession>,
    pub access_tokens: Vec<AccessToken>,
    pub refresh_tokens: Vec<RefreshToken>,
}

pub open spec fn stage_session(stage: GrantStage) -> Option<u64> {
    match stage {
        GrantStage::Fulfilled { session_id, .. } => Some(session_id),
        GrantStage::Exchanged { session_id, .. } => Some(session_id),
        _ => None,
    }
}

impl Store {
    /// The scopes that `user` granted to `client`.
    pub open spec fn consent_set(&self, user: u64, client: Seq<char>) -> Set<Seq<char>> {
        Set::new(
            |t: Seq<char>|
                exists|i: int|
                    0 <= i < self.consents@.len() && #[trigger] self.consents@[i].user_id == user
                        && self.consents@[i].client_id@ == client && self.consents@[i].scope@
                        == t,
        )
    }

    /// The user behind an OAuth session.
    pub open spec fn session_user(&self, s: u64) -> u64 {
        self.browser_sessions@[self.oauth_sessions@[s as int].browser_session_id as int].user_id
    }

    pub open spec fn users_wf(&self) -> bool {
        &&& forall|i: int| 0 <= i < self.users@.len() ==> (#[trigger] self.users@[i]).id == i
        &&& forall|i: int, j: int|
            0 <= i < self.users@.len() && 0 <= j < self.users@.len() && i != j
                ==> (#[trigger] self.users@[i]).username@ != (#[trigger] self.users@[j]).username@
    }

    pub open spec fn sessions_wf(&self) -> bool {
        &&& forall|i: int|
            0 <= i < self.browser_sessions@.len() ==> (#[trigger] self.browser_sessions@[i]).id == i
                && self.browser_sessions@[i].user_id < self.users@.len()
        &&& forall|i: int|
            0 <= i < self.authentications@.len() ==> (#[trigger] self.authentications@[i]).id == i
        &&& forall|i: int|
            0 <= i < self.oauth_sessions@.len() ==> (#[trigger] self.oauth_sessions@[i]).id == i
                && self.oauth_sessions@[i].browser_session_id < self.browser_sessions@.len()
    }

    /// Whether client ids are unique.
    pub open spec fn clients_wf(&self) -> bool {
        forall|i: int, j: int|
            0 <= i < self.clients@.len() && 0 <= j < self.clients@.len() && i != j
                ==> (#[trigger] self.clients@[i]).client_id@ != (#[trigger] self.clients@[j]).client_id@
    }

    pub open spec fn grants_wf(&self) -> bool {
        &&& forall|i: int|
            0 <= i < self.grants@.len() ==> (#[trigger] self.grants@[i]).id == i && (stage_session(
                self.grants@[i].stage,
            ) matches Some(s) ==> s < self.oauth_sessions@.len())
        &&& forall|i: int, j: int|
            0 <= i < self.grants@.len() && 0 <= j < self.grants@.len() && i != j
                && (#[trigger] self.grants@[i]).code is Some && (#[trigger] self.grants@[j]).code is Some
                ==> self.grants@[i].code->0.code@ != self.grants@[j].code->0.code@
    }

    pub open spec fn tokens_wf(&self) -> bool {
        &&& forall|i: int|
            0 <= i < self.access_tokens@.len() ==> (#[trigger] self.access_tokens@[i]).id == i
                && self.access_tokens@[i].session_id < self.oauth_sessions@.len()
                && carries_id(self.access_tokens@[i].token@, i as nat) && classify(
                self.access_tokens@[i].token@,
            ) == Ok::<TokenType, TokenFormatError>(TokenType::AccessToken)
        &&& forall|i: int|
            0 <= i < self.refresh_tokens@.len() ==> {
                let rt = #[trigger] self.refresh_tokens@[i];
                &&& rt.id == i
                &&& carries_id(rt.token@, i as nat)
                &&& classify(rt.token@) == Ok::<TokenType, TokenFormatError>(
                    TokenType::RefreshToken,
                )
                &&& rt.session_id < self.oauth_sessions@.len()
                &&& rt.access_token_id < self.access_tokens@.len()
                &&& self.access_tokens@[rt.access_token_id as int].session_id == rt.session_id
                &&& (rt.next_refresh_token_id matches Some(n) ==> i < n
                    < self.refresh_tokens@.len() && rt.consumed_at is Some)
            }
    }

    /// Every fulfilled or exchanged grant's scope was consented to by the
    /// user behind its session, for its client.
    pub open spec fn consent_wf(&self) -> bool {
        forall|i: int|
            0 <= i < self.grants@.len() && (#[trigger] stage_session(self.grants@[i].stage)) is Some
                ==> scope_set(self.grants@[i].scope@).subset_of(
                self.consent_set(
                    self.session_user(stage_session(self.grants@[i].stage)->0),
                    self.grants@[i].client_id@,
                ),
            )
    }

    pub open spec fn wf(&self) -> bool {
        &&& self.users_wf()
        &&& self.sessions_wf()
        &&& self.clients_wf()
        &&& self.grants_wf()
        &&& self.tokens_wf()
        &&& self.consent_wf()
    }

    /// An empty store.
    pub fn new() -> (r: Store)
        ensures
            r.wf(),
            r.users@.len() == 0,
            r.browser_sessions@.len() == 0,
            r.clients@.len() == 0,
            r.consents@.len() == 0,
            r.grants@.len() == 0,
            r.oauth_sessions@.len() == 0,
            r.access_tokens@.len() == 0,
            r.refresh_tokens@.len() == 0,
    {
        Store {
            users: Vec::new(),
            browser_sessions: Vec::new(),
            authentications: Vec::new(),
            clients: Vec::new(),
            consents: Vec::new(),
            grants: Vec::new(),
            oauth_sessions: Vec::new(),
            access_tokens: Vec::new(),
            refresh_tokens: Vec::new(),
        }
    }

    fn user_index(&self, username: &str) -> (r: Option<usize>)
        ensures
            r matches Some(i) ==> i < self.users@.len() && self.users@[i as int].username@
                == username@,
            r is None ==> forall|i: int|
                0 <= i < self.users@.len() ==> (#[trigger] self.users@[i]).username@ != username@,
    {
        let mut i: usize = 0;
        while i < self.users.len()
            invariant
                i <= self.users@.len(),
                forall|j: int| 0 <= j < i ==> (#[trigger] self.users@[j]).username@ != username@,
            decreases self.users@.len() - i,
        {
            if crate::text::str_eq(self.users[i].username.as_str(), username) {
                return Some(i);
            }
            i = i + 1;
        }
        None
    }

    /// The id of the user with this username.
    pub fn find_user(&self, username: &str) -> (r: Option<u64>)
        requires
            self.wf(),
        ensures
            r matches Some(id) ==> id < self.users@.len() && self.users@[id as int].username@
                == username@,
            r is None ==> forall|i: int|
                0 <= i < self.users@.len() ==> (#[trigger] self.users@[i]).username@ != username@,
    {
        match self.user_index(username) {
            Some(i) => Some(i as u64),
            None => None,
        }
    }

    /// Registers a user under a username that no one has yet, storing an
    /// Argon2id hash of the password.
    pub fn register_user(&mut self, username: &str, password: &str) -> (r: Result<
        u64,
        RegisterError,
    >)
        requires
            old(self).wf(),
        ensures
            final(self).wf(),
            (r == Err::<u64, RegisterError>(RegisterError::UsernameTaken)) <==> exists|i: int|
                0 <= i < old(self).users@.len() && (#[trigger] old(self).users@[i]).username@
                    == username@,
            r == Err::<u64, RegisterError>(RegisterError::HashingFailed) ==> password.spec_bytes().len()
                > MAX_PASSWORD_BYTES,
            password.spec_bytes().len() <= MAX_PASSWORD_BYTES && (forall|i: int|
                0 <= i < old(self).users@.len() ==> (#[trigger] old(self).users@[i]).username@
                    != username@) ==> r is Ok,
            r is Err ==> *final(self) == *old(self),
            r matches Ok(id) ==> {
                &&& id == old(self).users@.len()
                &&& final(self).users@.len() == old(self).users@.len() + 1
                &&& final(self).users@.drop_last() == old(self).users@
                &&& final(self).users@[id as int].username@ == username@
                &&& final(self).users@[id as int].password_hash matches Some(h)
                    && password_verifies(h@, password@)
                &&& final(self).browser_sessions == old(self).browser_sessions
                &&& final(self).grants == old(self).grants
                &&& final(self).consents == old(self).consents
                &&& final(self).clients == old(self).clients
            },
            r is Err ==> r == Err::<u64, RegisterError>(RegisterError::UsernameTaken) || r == Err::<
                u64,
                RegisterError,
            >(RegisterError::HashingFailed),
    {
        if let Some(_) = self.user_index(username) {
            return Err(RegisterError::UsernameTaken);
        }
        let hash = match hash_password(password) {
            Some(h) => h,
            None => return Err(RegisterError::HashingFailed),
        };
        let id = self.users.len() as u64;
        self.users.push(User { id, username: username.to_owned(), password_hash: Some(hash) });
        proof {
            assert(self.users@.drop_last() =~= old(self).users@);
        }
        Ok(id)
    }

    /// Whether the password matches the user's stored hash.
    fn check_password(&self, user_id: usize, password: &str) -> (r: bool)
        requires
            user_id < self.users@.len(),
        ensures
            r == (self.users@[user_id as int].password_hash matches Some(h) && password_verifies(
                h@,
                password@,
            )),
    {
        match &self.users[user_id].password_hash {
            Some(h) => verify_password(h.as_str(), password),
            None => {
                let _ = verify_password(DUMMY_PASSWORD_HASH, password);
                false
            },
        }
    }

    /// Logs a user in with a password: on success a new active browser
    /// session is started, with this check as its last authentication.
    pub fn login(&mut self, username: &str, password: &str, now: i64) -> (r: Result<
        u64,
        AuthenticationError,
    >)
        requires
            old(self).wf(),
        ensures
            final(self).wf(),
            r is Err ==> *final(self) == *old(self) && r == Err::<u64, AuthenticationError>(
                AuthenticationError::InvalidCredentials,
            ),
            r is Ok <==> exists|i: int|
                0 <= i < old(self).users@.len() && (#[trigger] old(self).users@[i]).username@
                    == username@ && (old(self).users@[i].password_hash matches Some(h)
                    && password_verifies(h@, password@)),
            r matches Ok(id) ==> {
                &&& id == old(self).browser_sessions@.len()
                &&& final(self).browser_sessions@.len() == id + 1
                &&& final(self).browser_sessions@.drop_last() == old(self).browser_sessions@
                &&& final(self).users@[final(self).browser_sessions@[id as int].user_id as int].username@
                    == username@
                &&& final(self).browser_sessions@[id as int].finished_at is None
                &&& final(self).browser_sessions@[id as int].last_authentication matches Some(a)
                    && a.created_at == now
                &&& final(self).users == old(self).users
                &&& final(self).grants == old(self).grants
                &&& final(self).consents == old(self).consents
                &&& final(self).clients == old(self).clients
            },
    {
        let user = match self.user_index(username) {
            Some(u) => u,
            None => {
                let _ = verify_password(DUMMY_PASSWORD_HASH, password);
                return Err(AuthenticationError::InvalidCredentials);
            },
        };
        if !self.check_password(user, password) {
            proof {
                assert forall|i: int|
                    0 <= i < old(self).users@.len() && (#[trigger] old(self).users@[i]).username@
                        == username@ implies !(old(self).users@[i].password_hash matches Some(h)
                    && password_verifies(h@, password@)) by {
                    assert(old(self).users@[user as int].username@ == username@);
                    assert(old(self).users_wf());
                    assert(i == user as int);
                }
            }
            return Err(AuthenticationError::InvalidCredentials);
        }
        assert(old(self).users@[user as int].username@ == username@);
        let session_id = self.browser_sessions.len() as u64;
        let auth_id = self.authentications.len() as u64;
        self.authentications.push(AuthenticationRecord { id: auth_id, session_id, created_at: now });
        self.browser_sessions.push(
            BrowserSession {
                id: session_id,
                user_id: user as u64,
                created_at: now,
                finished_at: None,
                last_authentication: Some(Authentication { id: auth_id, created_at: now }),
            },
        );
        proof {
            assert(self.browser_sessions@.drop_last() =~= old(self).browser_sessions@);
        }
        Ok(session_id)
    }

    /// Checks the password of the user behind an active browser session
    /// again; on success the check becomes the session's last
    /// authentication.
    pub fn authenticate_session(&mut self, session_id: u64, password: &str, now: i64) -> (r:
        Result<(), AuthenticationError>)
        requires
            old(self).wf(),
        ensures
            final(self).wf(),
            r is Err ==> *final(self) == *old(self),
            (session_id >= old(self).browser_sessions@.len() || old(
                self,
            ).browser_sessions@[session_id as int].finished_at is Some) ==> r == Err::<
                (),
                AuthenticationError,
            >(AuthenticationError::InactiveSession),
            session_id < old(self).browser_sessions@.len() && old(
                self,
            ).browser_sessions@[session_id as int].finished_at is None ==> {
                let bs = old(self).browser_sessions@[session_id as int];
                let verified = old(self).users@[bs.user_id as int].password_hash matches Some(h)
                    && password_verifies(h@, password@);
                &&& (r is Ok <==> verified)
                &&& (!verified ==> r == Err::<(), AuthenticationError>(
                    AuthenticationError::InvalidCredentials,
                ))
                &&& (verified ==> final(self).browser_sessions@ == old(
                    self,
                ).browser_sessions@.update(
                    session_id as int,
                    BrowserSession {
                        last_authentication: Some(
                            Authentication {
                                id: old(self).authentications@.len() as u64,
                                created_at: now,
                            },
                        ),
                        ..bs
                    },
                ))
            },
            r is Ok ==> final(self).users == old(self).users && final(self).grants == old(
                self,
            ).grants && final(self).consents == old(self).consents && final(self).clients == old(
                self,
            ).clients && final(self).oauth_sessions == old(self).oauth_sessions
                && final(self).access_tokens == old(self).access_tokens && final(self).refresh_tokens
                == old(self).refresh_tokens,
    {
        let idx = match row_index(session_id, self.browser_sessions.len()) {
            Some(i) => i,
            None => return Err(AuthenticationError::InactiveSession),
        };
        if !self.browser_sessions[idx].is_active() {
            return Err(AuthenticationError::InactiveSession);
        }
        let user = match row_index(self.browser_sessions[idx].user_id, self.users.len()) {
            Some(u) => u,
            None => return Err(AuthenticationError::InvalidCredentials),
        };
        if !self.check_password(user, password) {
            return Err(AuthenticationError::InvalidCredentials);
        }
        let auth_id = self.authentications.len() as u64;
        self.authentications.push(AuthenticationRecord { id: auth_id, session_id, created_at: now });
        self.browser_sessions[idx].last_authentication = Some(
            Authentication { id: auth_id, created_at: now },
        );
        Ok(())
    }

    /// Ends a browser session (logout).
    pub fn end_session(&mut self, session_id: u64, now: i64) -> (r: bool)
        requires
            old(self).wf(),
        ensures
            final(self).wf(),
            r == (session_id < old(self).browser_sessions@.len() && old(
                self,
            ).browser_sessions@[session_id as int].finished_at is None),
            !r ==> *final(self) == *old(self),
            r ==> final(self).browser_sessions@ == old(self).browser_sessions@.update(
                session_id as int,
                BrowserSession {
                    finished_at: Some(now),
                    ..old(self).browser_sessions@[session_id as int]
                },
            ),
            final(self).users == old(self).users,
            final(self).grants == old(self).grants,
            final(self).consents == old(self).consents,
            final(self).oauth_sessions == old(self).oauth_sessions,
            final(self).access_tokens == old(self).access_tokens,
            final(self).refresh_tokens == old(self).refresh_tokens,
    {
        let idx = match row_index(session_id, self.browser_sessions.len()) {
            Some(i) => i,
            None => return false,
        };
        if !self.browser_sessions[idx].is_active() {
            return false;
        }
        self.browser_sessions[idx].finished_at = Some(now);
        true
    }

    /// The position of the client with this id.
    pub fn lookup_client(&self, client_id: &str) -> (r: Option<usize>)
        ensures
            r matches Some(i) ==> i < self.clients@.len() && self.clients@[i as int].client_id@
                == client_id@,
            r is None ==> forall|i: int|
                0 <= i < self.clients@.len() ==> (#[trigger] self.clients@[i]).client_id@
                    != client_id@,
    {
        let mut i: usize = 0;
        while i < self.clients.len()
            invariant
                i <= self.clients@.len(),
                forall|j: int|
                    0 <= j < i ==> (#[trigger] self.clients@[j]).client_id@ != client_id@,
            decreases self.clients@.len() - i,
        {
            if crate::text::str_eq(self.clients[i].client_id.as_str(), client_id) {
                return Some(i);
            }
            i = i + 1;
        }
        None
    }

    /// Registers a client under an id that no client has yet.
    pub fn register_client(&mut self, client: Client) -> (r: Result<(), ClientRegistrationError>)
        requires
            old(self).wf(),
        ensures
            final(self).wf(),
            r is Ok <==> forall|i: int|
                0 <= i < old(self).clients@.len() ==> (#[trigger] old(self).clients@[i]).client_id@
                    != client.client_id@,
            r is Err ==> *final(self) == *old(self),
            r is Ok ==> final(self).clients@ == old(self).clients@.push(client),
            r is Ok ==> final(self).users == old(self).users && final(self).grants == old(
                self,
            ).grants && final(self).consents == old(self).consents && final(self).browser_sessions
                == old(self).browser_sessions && final(self).oauth_sessions == old(
                self,
            ).oauth_sessions && final(self).access_tokens == old(self).access_tokens
                && final(self).refresh_tokens == old(self).refresh_tokens,
    {
        if let Some(_) = self.lookup_client(client.client_id.as_str()) {
            return Err(ClientRegistrationError::AlreadyRegistered);
        }
        self.clients.push(client);
        Ok(())
    }

    /// The scopes that a user granted to a client.
    pub fn fetch_consent(&self, user_id: u64, client_id: &str) -> (r: Vec<String>)
        ensures
            scope_set(r@) == self.consent_set(user_id, client_id@),
    {
        let mut r: Vec<String> = Vec::new();
        let mut i: usize = 0;
        while i < self.consents.len()
            invariant
                i <= self.consents@.len(),
                forall|t: Seq<char>|
                    scope_set(r@).contains(t) <==> exists|j: int|
                        0 <= j < i && #[trigger] self.consents@[j].user_id == user_id
                            && self.consents@[j].client_id@ == client_id@
                            && self.consents@[j].scope@ == t,
            decreases self.consents@.len() - i,
        {
            if self.consents[i].user_id == user_id && crate::text::str_eq(
                self.consents[i].client_id.as_str(),
                client_id,
            ) {
                let ghost old_r = r@;
                r.push(self.consents[i].scope.clone());
                proof {
                    assert forall|t: Seq<char>|
                        scope_set(r@).contains(t) <==> exists|j: int|
                            0 <= j < i + 1 && #[trigger] self.consents@[j].user_id == user_id
                                && self.consents@[j].client_id@ == client_id@
                                && self.consents@[j].scope@ == t by {
                        if scope_set(r@).contains(t) {
                            let k = choose|k: int| 0 <= k < r@.len() && #[trigger] r@[k]@ == t;
                            if k < old_r.len() {
                                assert(old_r[k]@ == t);
                                assert(scope_set(old_r).contains(t));
                            } else {
                                assert(self.consents@[i as int].user_id == user_id);
                            }
                        }
                        if exists|j: int|
                            0 <= j < i + 1 && #[trigger] self.consents@[j].user_id == user_id
                                && self.consents@[j].client_id@ == client_id@
                                && self.consents@[j].scope@ == t {
                            let j = choose|j: int|
                                0 <= j < i + 1 && #[trigger] self.consents@[j].user_id == user_id
                                    && self.consents@[j].client_id@ == client_id@
                                    && self.consents@[j].scope@ == t;
                            if j < i {
                                assert(scope_set(old_r).contains(t));
                                let k = choose|k: int|
                                    0 <= k < old_r.len() && #[trigger] old_r[k]@ == t;
                                assert(r@[k]@ == t);
                            } else {
                                assert(r@[old_r.len() as int]@ == t);
                            }
                        }
                    }
                }
            }
            i = i + 1;
        }
        proof {
            assert(scope_set(r@) =~= self.consent_set(user_id, client_id@));
        }
        r
    }

    /// Adds scopes to what a user granted to a client; consent only grows.
    pub fn record_consent(&mut self, user_id: u64, client_id: &str, scope: &Vec<String>)
        requires
            old(self).wf(),
        ensures
            final(self).wf(),
            forall|u: u64, c: Seq<char>|
                #[trigger] final(self).consent_set(u, c) == if u == user_id && c == client_id@ {
                    old(self).consent_set(u, c).union(scope_set(scope@))
                } else {
                    old(self).consent_set(u, c)
                },
            final(self).users == old(self).users,
            final(self).browser_sessions == old(self).browser_sessions,
            final(self).clients == old(self).clients,
            final(self).grants == old(self).grants,
            final(self).oauth_sessions == old(self).oauth_sessions,
            final(self).access_tokens == old(self).access_tokens,
            final(self).refresh_tokens == old(self).refresh_tokens,
    {
        let mut i: usize = 0;
        while i < scope.len()
            invariant
                self.wf(),
                i <= scope@.len(),
                self.consents@.len() == old(self).consents@.len() + i,
                forall|k: int|
                    0 <= k < old(self).consents@.len() ==> self.consents@[k] == old(
                        self,
                    ).consents@[k],
                forall|k: int|
                    0 <= k < i ==> {
                        let e = #[trigger] self.consents@[old(self).consents@.len() + k];
                        e.user_id == user_id && e.client_id@ == client_id@ && e.scope@
                            == scope@[k]@
                    },
                self.users == old(self).users,
                self.browser_sessions == old(self).browser_sessions,
                self.clients == old(self).clients,
                self.grants == old(self).grants,
                self.oauth_sessions == old(self).oauth_sessions,
                self.access_tokens == old(self).access_tokens,
                self.refresh_tokens == old(self).refresh_tokens,
            decreases scope@.len() - i,
        {
            let ghost before = *self;
            self.consents.push(
                ConsentEntry {
                    user_id,
                    client_id: client_id.to_owned(),
                    scope: scope[i].clone(),
                },
            );
            proof {
                assert forall|u: u64, c: Seq<char>|
                    before.consent_set(u, c).subset_of(#[trigger] self.consent_set(u, c)) by {
                    assert forall|t: Seq<char>| before.consent_set(u, c).contains(t) implies self.consent_set(
                        u,
                        c,
                    ).contains(t) by {
                        let j = choose|j: int|
                            0 <= j < before.consents@.len() && #[trigger] before.consents@[j].user_id
                                == u && before.consents@[j].client_id@ == c
                                && before.consents@[j].scope@ == t;
                        assert(self.consents@[j] == before.consents@[j]);
                    }
                }
                assert forall|g: int|
                    0 <= g < self.grants@.len() && (#[trigger] stage_session(
                        self.grants@[g].stage,
                    )) is Some implies scope_set(self.grants@[g].scope@).subset_of(
                    self.consent_set(
                        self.session_user(stage_session(self.grants@[g].stage)->0),
                        self.grants@[g].client_id@,
                    ),
                ) by {
                    let u = self.session_user(stage_session(self.grants@[g].stage)->0);
                    let c = self.grants@[g].client_id@;
                    assert(before.consent_set(u, c).subset_of(self.consent_set(u, c)));
                }
            }
            i = i + 1;
        }
        proof {
            assert forall|u: u64, c: Seq<char>|
                #[trigger] self.consent_set(u, c) == if u == user_id && c == client_id@ {
                    old(self).consent_set(u, c).union(scope_set(scope@))
                } else {
                    old(self).consent_set(u, c)
                } by {
                let n = old(self).consents@.len();
                assert forall|t: Seq<char>|
                    self.consent_set(u, c).contains(t) == (if u == user_id && c == client_id@ {
                        old(self).consent_set(u, c).union(scope_set(scope@))
                    } else {
                        old(self).consent_set(u, c)
                    }).contains(t) by {
                    if self.consent_set(u, c).contains(t) {
                        let j = choose|j: int|
                            0 <= j < self.consents@.len() && #[trigger] self.consents@[j].user_id
                                == u && self.consents@[j].client_id@ == c
                                && self.consents@[j].scope@ == t;
                        if j >= n {
                            let k = j - n;
                            assert(self.consents@[n + k].scope@ == scope@[k]@);
                            assert(scope_set(scope@).contains(t));
                        } else {
                            assert(old(self).consents@[j] == self.consents@[j]);
                            assert(old(self).consent_set(u, c).contains(t));
                        }
                    }
                    if old(self).consent_set(u, c).contains(t) {
                        let j = choose|j: int|
                            0 <= j < old(self).consents@.len() && #[trigger] old(
                                self,
                            ).consents@[j].user_id == u && old(self).consents@[j].client_id@ == c
                                && old(self).consents@[j].scope@ == t;
                        assert(self.consents@[j] == old(self).consents@[j]);
                        assert(self.consent_set(u, c).contains(t));
                    }
                    if u == user_id && c == client_id@ && scope_set(scope@).contains(t) {
                        let k = choose|k: int| 0 <= k < scope@.len() && #[trigger] scope@[k]@ == t;
                        assert(self.consents@[n + k].user_id == u);
                        assert(self.consent_set(u, c).contains(t));
                    }
                }
                assert(self.consent_set(u, c) =~= (if u == user_id && c == client_id@ {
                    old(self).consent_set(u, c).union(scope_set(scope@))
                } else {
                    old(self).consent_set(u, c)
                }));
            }
        }
    }
}

/// No two issued tokens share a text: within a table each text carries its
/// row's id, and access and refresh tokens have different prefixes.
pub proof fn lemma_token_texts_unique(store: &Store)
    requires
        store.wf(),
    ensures
        forall|i: int, j: int|
            0 <= i < store.access_tokens@.len() && 0 <= j < store.access_tokens@.len() && i != j
                ==> (#[trigger] store.access_tokens@[i]).token@ != (#[trigger] store.access_tokens@[j]).token@,
        forall|i: int, j: int|
            0 <= i < store.refresh_tokens@.len() && 0 <= j < store.refresh_tokens@.len() && i != j
                ==> (#[trigger] store.refresh_tokens@[i]).token@ != (#[trigger] store.refresh_tokens@[j]).token@,
        forall|i: int, j: int|
            0 <= i < store.access_tokens@.len() && 0 <= j < store.refresh_tokens@.len()
                ==> (#[trigger] store.access_tokens@[i]).token@ != (#[trigger] store.refresh_tokens@[j]).token@,
{
    assert forall|i: int, j: int|
        0 <= i < store.access_tokens@.len() && 0 <= j < store.access_tokens@.len() && i != j
            implies (#[trigger] store.access_tokens@[i]).token@ != (#[trigger] store.access_tokens@[j]).token@ by {
        if store.access_tokens@[i].token@ == store.access_tokens@[j].token@ {
            lemma_carried_id_unique(store.access_tokens@[i].token@, i as nat, j as nat);
        }
    }
    assert forall|i: int, j: int|
        0 <= i < store.refresh_tokens@.len() && 0 <= j < store.refresh_tokens@.len() && i != j
            implies (#[trigger] store.refresh_tokens@[i]).token@ != (#[trigger] store.refresh_tokens@[j]).token@ by {
        if store.refresh_tokens@[i].token@ == store.refresh_tokens@[j].token@ {
            lemma_carried_id_unique(store.refresh_tokens@[i].token@, i as nat, j as nat);
        }
    }
}

} // verus!
