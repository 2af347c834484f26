use vstd::prelude::*;

use crate::csrf::{form_check, CsrfCookie, CsrfError, ProtectedForm};
use crate::grant::opt_string_view;
use crate::flow::{AuthorizationResponse, GrantCompletionError, GrantError};
use crate::model::{row_index, AuthorizationGrant};
use crate::scope::{clone_scope, scope_set};
use crate::store::{stage_session, AuthenticationError, Store};

verus! {

/// Where the browser goes next while an authorization grant is completed.
pub enum NextStep {
    /// Log in first, then come back to the grant.
    Login { continue_grant: u64 },
    /// Enter the password again, then come back to the grant.
    Reauth { continue_grant: u64 },
    /// Show the consent page of the grant.
    Consent { grant_id: u64 },
    /// Send the response to the client's redirect URI.
    Callback(AuthorizationResponse),
}

/// Errors of the grant-completion page.
#[derive(Clone, Copy, Debug, PartialEq, Eq, Structural)]
pub enum RouteError {
    NotFound,
    /// The authorization grant is not in a pending state.
    NotPending,
}

impl RouteError {
    /// 404 for an unknown grant, 400 for one that is no longer pending.
    pub fn status_code(&self) -> (r: u16)
        ensures
            r == (if *self is NotFound {
                404u16
            } else {
                400u16
            }),
    {
        match self {
            RouteError::NotFound => 404,
            RouteError::NotPending => 400,
        }
    }
}

/// Errors of the login, reauthentication and consent forms.
#[derive(Clone, Copy, Debug, PartialEq, Eq, Structural)]
pub enum FormError {
    Csrf(CsrfError),
    Authentication(AuthenticationError),
    Grant(GrantError),
}

/// Fields of the login form.
pub struct LoginForm {
    pub username: String,
    pub password: String,
}

/// Fields of the reauthentication form.
pub struct ReauthForm {
    pub password: String,
}

/// What the reauthentication form leads to.
#[derive(Clone, Copy, Debug, PartialEq, Eq, Structural)]
pub enum ReauthOutcome {
    /// There is no session to reauthenticate: log in instead.
    Login,
    /// The password was right: continue where the user came from.
    Continue,
}

/// Whether a browser session is known and running.
pub open spec fn session_usable(store: &Store, session: Option<u64>) -> bool {
    session matches Some(s) && s < store.browser_sessions@.len()
        && store.browser_sessions@[s as int].finished_at is None
}

impl Store {
    fn session_usable_exec(&self, session: Option<u64>) -> (r: bool)
        ensures
            r == session_usable(self, session),
    {
        match session {
            None => false,
            Some(s) => match row_index(s, self.browser_sessions.len()) {
                None => false,
                Some(i) => self.browser_sessions[i].is_active(),
            },
        }
    }

    /// Decides what the grant-completion page does for the browser's
    /// session (if any): log in, reauthenticate, consent, or redirect back
    /// to the client once the grant is fulfilled. A grant that is no longer
    /// pending is refused before the session is looked at.
    pub fn authorization_step(&mut self, grant_id: u64, session: Option<u64>, now: i64) -> (r:
        Result<NextStep, RouteError>)
        requires
            old(self).wf(),
        ensures
            final(self).wf(),
            grant_id >= old(self).grants@.len() ==> r == Err::<NextStep, RouteError>(
                RouteError::NotFound,
            ) && *final(self) == *old(self),
            grant_id < old(self).grants@.len() && !(old(self).grants@[grant_id as int].stage is Pending)
                ==> r == Err::<NextStep, RouteError>(RouteError::NotPending) && *final(self) == *old(
                self),
            grant_id < old(self).grants@.len() && old(self).grants@[grant_id as int].stage is Pending
                && !session_usable(old(self), session) ==> (r matches Ok(
                NextStep::Login { continue_grant },
            ) && continue_grant == grant_id) && *final(self) == *old(self),
            grant_id < old(self).grants@.len() && old(self).grants@[grant_id as int].stage is Pending
                && session_usable(old(self), session) ==> {
                let chk = old(self).completion_check(grant_id, session->0, now);
                let g = old(self).grants@[grant_id as int];
                &&& (chk == Err::<(), GrantCompletionError>(GrantCompletionError::RequiresReauth)
                    ==> (r matches Ok(NextStep::Reauth { continue_grant }) && continue_grant
                    == grant_id))
                &&& (chk == Err::<(), GrantCompletionError>(GrantCompletionError::RequiresConsent)
                    ==> (r matches Ok(NextStep::Consent { grant_id: k }) && k == grant_id))
                &&& (chk is Err ==> *final(self) == *old(self))
                &&& (chk is Ok ==> (r matches Ok(NextStep::Callback(resp)) && {
                    &&& final(self).grants@[grant_id as int].stage is Fulfilled
                    &&& resp.redirect_uri@ == g.redirect_uri@
                    &&& resp.response_mode == g.response_mode
                    &&& opt_string_view(resp.state) == opt_string_view(g.state)
                    &&& (resp.code is Some <==> g.code is Some)
                    &&& (resp.code matches Some(c) ==> c@ == g.code->0.code@)
                    &&& (resp.response is Some <==> g.response_type_token)
                    &&& (resp.id_token is Some <==> g.response_type_id_token)
                }))
            },
    {
        let gi = match row_index(grant_id, self.grants.len()) {
            Some(i) => i,
            None => return Err(RouteError::NotFound),
        };
        if !self.grants[gi].stage.is_pending() {
            return Err(RouteError::NotPending);
        }
        if !self.session_usable_exec(session) {
            return Ok(NextStep::Login { continue_grant: grant_id });
        }
        let s = match session {
            Some(s) => s,
            None => return Ok(NextStep::Login { continue_grant: grant_id }),
        };
        match self.complete(grant_id, s, now) {
            Ok(params) => Ok(NextStep::Callback(params)),
            Err(GrantCompletionError::RequiresReauth) => Ok(
                NextStep::Reauth { continue_grant: grant_id },
            ),
            Err(GrantCompletionError::RequiresConsent) => Ok(NextStep::Consent { grant_id }),
            Err(GrantCompletionError::NotPending) => Err(RouteError::NotPending),
            Err(_) => Err(RouteError::NotFound),
        }
    }

    /// The login form: checks the CSRF value, then the credentials; starts
    /// a browser session on success.
    pub fn login_post(&mut self, cookie: CsrfCookie, form: ProtectedForm<LoginForm>, now: i64) -> (r:
        Result<u64, FormError>)
        requires
            old(self).wf(),
        ensures
            final(self).wf(),
            form_check(cookie, form.csrf@, now) is Err ==> r == Err::<u64, FormError>(
                FormError::Csrf(form_check(cookie, form.csrf@, now)->Err_0),
            ) && *final(self) == *old(self),
            form_check(cookie, form.csrf@, now) is Ok ==> (r is Ok <==> exists|i: int|
                0 <= i < old(self).users@.len() && (#[trigger] old(self).users@[i]).username@
                    == form.inner.username@ && (old(self).users@[i].password_hash matches Some(h)
                    && crate::store::password_verifies(h@, form.inner.password@))),
            r matches Ok(id) ==> id == old(self).browser_sessions@.len() && final(self).browser_sessions@[id as int].finished_at is None,
            r is Err ==> *final(self) == *old(self),
    {
        let inner = match cookie.verify_form_at(form, now) {
            Ok(inner) => inner,
            Err(e) => return Err(FormError::Csrf(e)),
        };
        match self.login(inner.username.as_str(), inner.password.as_str(), now) {
            Ok(id) => Ok(id),
            Err(e) => Err(FormError::Authentication(e)),
        }
    }

    /// The reauthentication form: checks the CSRF value, then the password
    /// of the session's user, which becomes the session's last
    /// authentication.
    pub fn reauth_post(
        &mut self,
        cookie: CsrfCookie,
        form: ProtectedForm<ReauthForm>,
        session: Option<u64>,
        now: i64,
    ) -> (r: Result<ReauthOutcome, FormError>)
        requires
            old(self).wf(),
        ensures
            final(self).wf(),
            form_check(cookie, form.csrf@, now) is Err ==> r == Err::<ReauthOutcome, FormError>(
                FormError::Csrf(form_check(cookie, form.csrf@, now)->Err_0),
            ),
            form_check(cookie, form.csrf@, now) is Ok && !session_usable(old(self), session) ==> r
                == Ok::<ReauthOutcome, FormError>(ReauthOutcome::Login),
            r is Err || r == Ok::<ReauthOutcome, FormError>(ReauthOutcome::Login) ==> *final(self)
                == *old(self),
            r == Ok::<ReauthOutcome, FormError>(ReauthOutcome::Continue) ==> session_usable(
                old(self),
                session,
            ) && {
                let bs = old(self).browser_sessions@[session->0 as int];
                &&& old(self).users@[bs.user_id as int].password_hash matches Some(h)
                    && crate::store::password_verifies(h@, form.inner.password@)
                &&& final(self).browser_sessions@[session->0 as int].last_authentication matches Some(a) && a.created_at == now
            },
            form_check(cookie, form.csrf@, now) is Ok && session_usable(old(self), session) ==> (
            r == Ok::<ReauthOutcome, FormError>(ReauthOutcome::Continue) <==> ({
                let bs = old(self).browser_sessions@[session->0 as int];
                old(self).users@[bs.user_id as int].password_hash matches Some(h)
                    && crate::store::password_verifies(h@, form.inner.password@)
            })),
    {
        let inner = match cookie.verify_form_at(form, now) {
            Ok(inner) => inner,
            Err(e) => return Err(FormError::Csrf(e)),
        };
        if !self.session_usable_exec(session) {
            return Ok(ReauthOutcome::Login);
        }
        let s = match session {
            Some(s) => s,
            None => return Ok(ReauthOutcome::Login),
        };
        match self.authenticate_session(s, inner.password.as_str(), now) {
            Ok(()) => Ok(ReauthOutcome::Continue),
            Err(e) => Err(FormError::Authentication(e)),
        }
    }

    /// The user accepts a pending grant's scope for its client: the consent
    /// is recorded, and the grant no longer asks for consent explicitly.
    pub fn give_consent(&mut self, grant_id: u64, session_id: u64) -> (r: Result<(), GrantError>)
        requires
            old(self).wf(),
        ensures
            final(self).wf(),
            r is Err ==> *final(self) == *old(self),
            grant_id >= old(self).grants@.len() ==> r == Err::<(), GrantError>(GrantError::NotFound),
            grant_id < old(self).grants@.len() && !(old(self).grants@[grant_id as int].stage is Pending)
                ==> r == Err::<(), GrantError>(GrantError::NotPending),
            grant_id < old(self).grants@.len() && old(self).grants@[grant_id as int].stage is Pending
                && !session_usable(old(self), Some(session_id)) ==> r == Err::<(), GrantError>(
                GrantError::InactiveSession,
            ),
            grant_id < old(self).grants@.len() && old(self).grants@[grant_id as int].stage is Pending
                && session_usable(old(self), Some(session_id)) ==> r is Ok,
            r is Ok ==> {
                let g = old(self).grants@[grant_id as int];
                let user = old(self).browser_sessions@[session_id as int].user_id;
                &&& final(self).grants@ == old(self).grants@.update(
                    grant_id as int,
                    AuthorizationGrant { requires_consent: false, ..g },
                )
                &&& forall|u: u64, c: Seq<char>|
                    #[trigger] final(self).consent_set(u, c) == if u == user && c == g.client_id@ {
                        old(self).consent_set(u, c).union(scope_set(g.scope@))
                    } else {
                        old(self).consent_set(u, c)
                    }
            },
    {
        let gi = match row_index(grant_id, self.grants.len()) {
            Some(i) => i,
            None => return Err(GrantError::NotFound),
        };
        if !self.grants[gi].stage.is_pending() {
            return Err(GrantError::NotPending);
        }
        if !self.session_usable_exec(Some(session_id)) {
            return Err(GrantError::InactiveSession);
        }
        let si = match row_index(session_id, self.browser_sessions.len()) {
            Some(i) => i,
            None => return Err(GrantError::InactiveSession),
        };
        let user = self.browser_sessions[si].user_id;
        let scope = clone_scope(&self.grants[gi].scope);
        let client_id = self.grants[gi].client_id.clone();
        self.record_consent(user, client_id.as_str(), &scope);
        let ghost before = *self;
        self.grants[gi].requires_consent = false;
        proof {
            assert forall|k: int|
                0 <= k < self.grants@.len() && (#[trigger] stage_session(self.grants@[k].stage))
                    is Some implies scope_set(self.grants@[k].scope@).subset_of(
                self.consent_set(
                    self.session_user(stage_session(self.grants@[k].stage)->0),
                    self.grants@[k].client_id@,
                ),
            ) by {
                assert(self.grants@[k].stage == before.grants@[k].stage);
                assert(self.grants@[k].scope == before.grants@[k].scope);
                assert(self.grants@[k].client_id == before.grants@[k].client_id);
                assert(stage_session(before.grants@[k].stage) is Some);
            }
            assert forall|i: int, j: int|
                0 <= i < self.grants@.len() && 0 <= j < self.grants@.len() && i != j
                    && (#[trigger] self.grants@[i]).code is Some && (#[trigger] self.grants@[j]).code is Some
                    implies self.grants@[i].code->0.code@ != self.grants@[j].code->0.code@ by {
                assert(self.grants@[i].code == before.grants@[i].code);
                assert(self.grants@[j].code == before.grants@[j].code);
            }
            assert(self.grants@ =~= old(self).grants@.update(
                grant_id as int,
                AuthorizationGrant { requires_consent: false, ..old(self).grants@[grant_id as int] },
            ));
            assert forall|u: u64, c: Seq<char>|
                #[trigger] self.consent_set(u, c) == before.consent_set(u, c) by {
                assert(self.consent_set(u, c) =~= before.consent_set(u, c));
            }
        }
        Ok(())
    }
}

} // verus!
