use vstd::prelude::*;

use crate::client::{parse_url, parsed_url};
use crate::model::{
    Authentication, AuthorizationCode, AuthorizationGrant, BrowserSession, CodeChallengeMethod,
    GrantStage, Pkce, ResponseMode, User,
};
use crate::scope::{is_scope_text, join_scope, parse_scope, scope_view};
use crate::text::str_eq;

verus! {

/// A stored row is not one that the store's invariants allow.
#[derive(Clone, Copy, Debug, PartialEq, Eq, Structural)]
pub struct DatabaseInconsistencyError;

/// One row of the grant table joined with its session, browser session,
/// user and last authentication, as the store hands it back.
pub struct GrantLookup {
    pub grant_id: u64,
    pub grant_created_at: i64,
    pub grant_cancelled_at: Option<i64>,
    pub grant_fulfilled_at: Option<i64>,
    pub grant_exchanged_at: Option<i64>,
    pub grant_scope: String,
    pub grant_state: Option<String>,
    pub grant_redirect_uri: String,
    pub grant_response_mode: String,
    pub grant_nonce: Option<String>,
    pub grant_max_age: Option<i32>,
    pub grant_acr_values: Option<String>,
    pub grant_response_type_code: bool,
    pub grant_response_type_token: bool,
    pub grant_response_type_id_token: bool,
    pub grant_requires_consent: bool,
    pub grant_code: Option<String>,
    pub grant_code_challenge: Option<String>,
    pub grant_code_challenge_method: Option<String>,
    pub client_id: String,
    pub session_id: Option<u64>,
    pub user_session_id: Option<u64>,
    pub user_session_created_at: Option<i64>,
    pub user_id: Option<u64>,
    pub user_username: Option<String>,
    pub user_session_last_authentication_id: Option<u64>,
    pub user_session_last_authentication_created_at: Option<i64>,
}

/// A grant read back from the store, with the browser session and user
/// behind its OAuth session when it has one.
pub struct LoadedGrant {
    pub grant: AuthorizationGrant,
    pub session: Option<(BrowserSession, User)>,
}

pub open spec fn is_pending_row(
    cancelled: Option<i64>,
    fulfilled: Option<i64>,
    exchanged: Option<i64>,
    session: Option<u64>,
) -> bool {
    cancelled is None && fulfilled is None && exchanged is None && session is None
}

pub open spec fn is_fulfilled_row(
    cancelled: Option<i64>,
    fulfilled: Option<i64>,
    exchanged: Option<i64>,
    session: Option<u64>,
) -> bool {
    cancelled is None && fulfilled is Some && exchanged is None && session is Some
}

pub open spec fn is_exchanged_row(
    cancelled: Option<i64>,
    fulfilled: Option<i64>,
    exchanged: Option<i64>,
    session: Option<u64>,
) -> bool {
    cancelled is None && fulfilled is Some && exchanged is Some && session is Some
}

pub open spec fn is_cancelled_row(
    cancelled: Option<i64>,
    fulfilled: Option<i64>,
    exchanged: Option<i64>,
    session: Option<u64>,
) -> bool {
    cancelled is Some && fulfilled is None && exchanged is None && session is None
}

/// The stage that the timestamps and session link of a grant row stand
/// for, or `None` for a combination the store does not allow.
pub open spec fn stage_of(
    cancelled: Option<i64>,
    fulfilled: Option<i64>,
    exchanged: Option<i64>,
    session: Option<u64>,
) -> Option<GrantStage> {
    if is_pending_row(cancelled, fulfilled, exchanged, session) {
        Some(GrantStage::Pending)
    } else if is_fulfilled_row(cancelled, fulfilled, exchanged, session) {
        Some(GrantStage::Fulfilled { session_id: session->0, fulfilled_at: fulfilled->0 })
    } else if is_exchanged_row(cancelled, fulfilled, exchanged, session) {
        Some(
            GrantStage::Exchanged {
                session_id: session->0,
                fulfilled_at: fulfilled->0,
                exchanged_at: exchanged->0,
            },
        )
    } else if is_cancelled_row(cancelled, fulfilled, exchanged, session) {
        Some(GrantStage::Cancelled { cancelled_at: cancelled->0 })
    } else {
        None
    }
}

/// The timestamps and session link stored for a stage:
/// `(cancelled_at, fulfilled_at, exchanged_at, session)`.
pub open spec fn columns_of(stage: GrantStage) -> (
    Option<i64>,
    Option<i64>,
    Option<i64>,
    Option<u64>,
) {
    match stage {
        GrantStage::Pending => (None, None, None, None),
        GrantStage::Fulfilled { session_id, fulfilled_at } => (
            None,
            Some(fulfilled_at),
            None,
            Some(session_id),
        ),
        GrantStage::Exchanged { session_id, fulfilled_at, exchanged_at } => (
            None,
            Some(fulfilled_at),
            Some(exchanged_at),
            Some(session_id),
        ),
        GrantStage::Cancelled { cancelled_at } => (Some(cancelled_at), None, None, None),
    }
}

/// Every grant row matches at most one of the four stage patterns; it has a
/// stage exactly when it matches one, and then the stage is that pattern's.
/// The columns stored for any stage match exactly one pattern and read back
/// as that stage.
pub proof fn lemma_exactly_one_stage(
    cancelled: Option<i64>,
    fulfilled: Option<i64>,
    exchanged: Option<i64>,
    session: Option<u64>,
    stage: GrantStage,
)
    ensures
        ({
            let p = is_pending_row(cancelled, fulfilled, exchanged, session);
            let f = is_fulfilled_row(cancelled, fulfilled, exchanged, session);
            let e = is_exchanged_row(cancelled, fulfilled, exchanged, session);
            let c = is_cancelled_row(cancelled, fulfilled, exchanged, session);
            &&& (p as int) + (f as int) + (e as int) + (c as int) <= 1
            &&& stage_of(cancelled, fulfilled, exchanged, session) is Some <==> (p || f || e || c)
            &&& p ==> stage_of(cancelled, fulfilled, exchanged, session) == Some(
                GrantStage::Pending,
            )
            &&& f ==> stage_of(cancelled, fulfilled, exchanged, session)->0 is Fulfilled
            &&& e ==> stage_of(cancelled, fulfilled, exchanged, session)->0 is Exchanged
            &&& c ==> stage_of(cancelled, fulfilled, exchanged, session)->0 is Cancelled
        }),
        ({
            let (c, f, e, s) = columns_of(stage);
            &&& (is_pending_row(c, f, e, s) as int) + (is_fulfilled_row(c, f, e, s) as int) + (
            is_exchanged_row(c, f, e, s) as int) + (is_cancelled_row(c, f, e, s) as int) == 1
            &&& stage_of(c, f, e, s) == Some(stage)
        }),
{
}

/// The PKCE challenge stored in a row: `Some(None)` for none,
/// `Some(Some(..))` for a well-formed one, `None` for an inconsistent pair.
pub open spec fn pkce_of(challenge: Option<Seq<char>>, method: Option<Seq<char>>) -> Option<
    Option<(CodeChallengeMethod, Seq<char>)>,
> {
    match (challenge, method) {
        (None, None) => Some(None),
        (Some(c), Some(m)) => if m == "plain"@ {
            Some(Some((CodeChallengeMethod::Plain, c)))
        } else if m == "S256"@ {
            Some(Some((CodeChallengeMethod::S256, c)))
        } else {
            None
        },
        _ => None,
    }
}

pub open spec fn response_mode_of(m: Seq<char>) -> Option<ResponseMode> {
    if m == "query"@ {
        Some(ResponseMode::Query)
    } else if m == "fragment"@ {
        Some(ResponseMode::Fragment)
    } else if m == "form_post"@ {
        Some(ResponseMode::FormPost)
    } else {
        None
    }
}

pub open spec fn opt_string_view(o: Option<String>) -> Option<Seq<char>> {
    match o {
        Some(s) => Some(s@),
        None => None,
    }
}

pub open spec fn pkce_view(p: Option<Pkce>) -> Option<(CodeChallengeMethod, Seq<char>)> {
    match p {
        Some(p) => Some((p.challenge_method, p.challenge@)),
        None => None,
    }
}

pub open spec fn code_view(c: Option<AuthorizationCode>) -> Option<
    (Seq<char>, Option<(CodeChallengeMethod, Seq<char>)>),
> {
    match c {
        Some(c) => Some((c.code@, pkce_view(c.pkce))),
        None => None,
    }
}

/// The session columns are all set or all null, the last-authentication
/// pair likewise, and there is no authentication without a session.
pub open spec fn session_columns_consistent(row: GrantLookup) -> bool {
    let all_some = row.session_id is Some && row.user_session_id is Some
        && row.user_session_created_at is Some && row.user_id is Some
        && row.user_username is Some;
    let all_none = row.session_id is None && row.user_session_id is None
        && row.user_session_created_at is None && row.user_id is None
        && row.user_username is None;
    let auth_some = row.user_session_last_authentication_id is Some
        && row.user_session_last_authentication_created_at is Some;
    let auth_none = row.user_session_last_authentication_id is None
        && row.user_session_last_authentication_created_at is None;
    (all_some && (auth_some || auth_none)) || (all_none && auth_none)
}

/// The code stored in a row, or `None` for an inconsistent combination.
pub open spec fn code_of(row: GrantLookup) -> Option<
    Option<(Seq<char>, Option<(CodeChallengeMethod, Seq<char>)>)>,
> {
    let pkce = pkce_of(
        opt_string_view(row.grant_code_challenge),
        opt_string_view(row.grant_code_challenge_method),
    );
    match pkce {
        None => None,
        Some(p) => if !row.grant_response_type_code && row.grant_code is None && p is None {
            Some(None)
        } else if row.grant_response_type_code && row.grant_code is Some {
            Some(Some((row.grant_code->0@, p)))
        } else {
            None
        },
    }
}

/// Whether a row reads back as a grant.
pub open spec fn row_consistent(row: GrantLookup) -> bool {
    &&& is_scope_text(row.grant_scope@)
    &&& session_columns_consistent(row)
    &&& stage_of(
        row.grant_cancelled_at,
        row.grant_fulfilled_at,
        row.grant_exchanged_at,
        row.session_id,
    ) is Some
    &&& code_of(row) is Some
    &&& parsed_url(row.grant_redirect_uri@) is Some
    &&& response_mode_of(row.grant_response_mode@) is Some
    &&& (row.grant_max_age matches Some(m) ==> m >= 0)
}

fn parse_response_mode(m: &str) -> (r: Option<ResponseMode>)
    ensures
        r == response_mode_of(m@),
{
    if str_eq(m, "query") {
        Some(ResponseMode::Query)
    } else if str_eq(m, "fragment") {
        Some(ResponseMode::Fragment)
    } else if str_eq(m, "form_post") {
        Some(ResponseMode::FormPost)
    } else {
        None
    }
}

fn decode_pkce(challenge: Option<String>, method: Option<String>) -> (r: Result<
    Option<Pkce>,
    DatabaseInconsistencyError,
>)
    ensures
        r is Ok <==> pkce_of(opt_string_view(challenge), opt_string_view(method)) is Some,
        r matches Ok(p) ==> pkce_view(p) == pkce_of(
            opt_string_view(challenge),
            opt_string_view(method),
        )->0,
{
    match (challenge, method) {
        (None, None) => Ok(None),
        (Some(challenge), Some(m)) => {
            if str_eq(m.as_str(), "plain") {
                Ok(Some(Pkce { challenge_method: CodeChallengeMethod::Plain, challenge }))
            } else if str_eq(m.as_str(), "S256") {
                Ok(Some(Pkce { challenge_method: CodeChallengeMethod::S256, challenge }))
            } else {
                Err(DatabaseInconsistencyError)
            }
        },
        _ => Err(DatabaseInconsistencyError),
    }
}

impl GrantLookup {
    /// Reads the row back as a grant, refusing any combination of columns
    /// that the store's invariants rule out.
    pub fn try_into_grant(self) -> (r: Result<LoadedGrant, DatabaseInconsistencyError>)
        ensures
            r is Ok <==> row_consistent(self),
            r matches Ok(l) ==> {
                let g = l.grant;
                &&& g.id == self.grant_id
                &&& g.created_at == self.grant_created_at
                &&& Some(g.stage) == stage_of(
                    self.grant_cancelled_at,
                    self.grant_fulfilled_at,
                    self.grant_exchanged_at,
                    self.session_id,
                )
                &&& g.client_id@ == self.client_id@
                &&& join_scope(scope_view(g.scope@)) == self.grant_scope@
                &&& opt_string_view(g.state) == opt_string_view(self.grant_state)
                &&& opt_string_view(g.nonce) == opt_string_view(self.grant_nonce)
                &&& opt_string_view(g.acr_values) == opt_string_view(self.grant_acr_values)
                &&& g.redirect_uri@ == parsed_url(self.grant_redirect_uri@)->0
                &&& Some(g.response_mode) == response_mode_of(self.grant_response_mode@)
                &&& code_view(g.code) == code_of(self)->0
                &&& (g.max_age matches Some(m) ==> self.grant_max_age == Some(m as i32))
                &&& (g.max_age is None ==> self.grant_max_age is None)
                &&& g.response_type_token == self.grant_response_type_token
                &&& g.response_type_id_token == self.grant_response_type_id_token
                &&& g.requires_consent == self.grant_requires_consent
                &&& (l.session is Some <==> self.session_id is Some)
                &&& (l.session matches Some((bs, u)) ==> {
                    &&& Some(bs.id) == self.user_session_id
                    &&& Some(bs.created_at) == self.user_session_created_at
                    &&& Some(bs.user_id) == self.user_id
                    &&& bs.finished_at is None
                    &&& (bs.last_authentication matches Some(a) ==> Some(a.id)
                        == self.user_session_last_authentication_id && Some(a.created_at)
                        == self.user_session_last_authentication_created_at)
                    &&& (bs.last_authentication is None
                        ==> self.user_session_last_authentication_id is None)
                    &&& u.id == bs.user_id
                    &&& Some(u.username@) == opt_string_view(self.user_username)
                    &&& u.password_hash is None
                })
            },
    {
        let scope = match parse_scope(self.grant_scope.as_str()) {
            Some(s) => s,
            None => return Err(DatabaseInconsistencyError),
        };
        let last_authentication = match (
            self.user_session_last_authentication_id,
            self.user_session_last_authentication_created_at,
        ) {
            (Some(id), Some(created_at)) => Some(Authentication { id, created_at }),
            (None, None) => None,
            _ => return Err(DatabaseInconsistencyError),
        };
        let session = match (
            self.session_id,
            self.user_session_id,
            self.user_session_created_at,
            self.user_id,
            self.user_username,
        ) {
            (
                Some(_session_id),
                Some(user_session_id),
                Some(user_session_created_at),
                Some(user_id),
                Some(username),
            ) => {
                let user = User { id: user_id, username, password_hash: None };
                let browser_session = BrowserSession {
                    id: user_session_id,
                    user_id,
                    created_at: user_session_created_at,
                    finished_at: None,
                    last_authentication,
                };
                Some((browser_session, user))
            },
            (None, None, None, None, None) => {
                if last_authentication.is_some() {
                    return Err(DatabaseInconsistencyError);
                }
                None
            },
            _ => return Err(DatabaseInconsistencyError),
        };
        let stage = match (
            self.grant_fulfilled_at,
            self.grant_exchanged_at,
            self.grant_cancelled_at,
            self.session_id,
        ) {
            (None, None, None, None) => GrantStage::Pending,
            (Some(fulfilled_at), None, None, Some(session_id)) => GrantStage::Fulfilled {
                session_id,
                fulfilled_at,
            },
            (Some(fulfilled_at), Some(exchanged_at), None, Some(session_id)) => {
                GrantStage::Exchanged { session_id, fulfilled_at, exchanged_at }
            },
            (None, None, Some(cancelled_at), None) => GrantStage::Cancelled { cancelled_at },
            _ => return Err(DatabaseInconsistencyError),
        };
        let pkce = decode_pkce(self.grant_code_challenge, self.grant_code_challenge_method)?;
        let code = match (self.grant_response_type_code, self.grant_code, pkce) {
            (false, None, None) => None,
            (true, Some(code), pkce) => Some(AuthorizationCode { code, pkce }),
            _ => return Err(DatabaseInconsistencyError),
        };
        let redirect_uri = match parse_url(self.grant_redirect_uri.as_str()) {
            Some(u) => u,
            None => return Err(DatabaseInconsistencyError),
        };
        let response_mode = match parse_response_mode(self.grant_response_mode.as_str()) {
            Some(m) => m,
            None => return Err(DatabaseInconsistencyError),
        };
        let max_age = match self.grant_max_age {
            None => None,
            Some(m) => {
                if m < 0 {
                    return Err(DatabaseInconsistencyError);
                }
                Some(m as u32)
            },
        };
        let grant = AuthorizationGrant {
            id: self.grant_id,
            created_at: self.grant_created_at,
            stage,
            client_id: self.client_id,
            redirect_uri,
            scope,
            state: self.grant_state,
            nonce: self.grant_nonce,
            max_age,
            acr_values: self.grant_acr_values,
            response_mode,
            code,
            response_type_token: self.grant_response_type_token,
            response_type_id_token: self.grant_response_type_id_token,
            requires_consent: self.grant_requires_consent,
        };
        Ok(LoadedGrant { grant, session })
    }
}

} // verus!
