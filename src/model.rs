use vstd::prelude::*;

verus! {

/// The position in a table of `len` rows of the row whose id is `id`.
pub fn row_index(id: u64, len: usize) -> (r: Option<usize>)
    ensures
        r matches Some(i) ==> i == id && i < len,
        r is None ==> id >= len,
{
    if id < len as u64 {
        Some(id as usize)
    } else {
        None
    }
}

/// How the authorization response is handed back to the client.
#[derive(Clone, Copy, Debug, PartialEq, Eq, Structural)]
pub enum ResponseMode {
    Query,
    Fragment,
    FormPost,
}

/// PKCE code-challenge method.
#[derive(Clone, Copy, Debug, PartialEq, Eq, Structural)]
pub enum CodeChallengeMethod {
    Plain,
    S256,
}

/// A PKCE challenge attached to an authorization code.
#[derive(Clone, Debug)]
pub struct Pkce {
    pub challenge_method: CodeChallengeMethod,
    pub challenge: String,
}

/// The code of a grant that asked for `response_type=code`.
#[derive(Clone, Debug)]
pub struct AuthorizationCode {
    pub code: String,
    pub pkce: Option<Pkce>,
}

/// Stage of an authorization grant, with what each stage carries.
#[derive(Clone, Copy, Debug, PartialEq, Eq, Structural)]
pub enum GrantStage {
    Pending,
    Fulfilled { session_id: u64, fulfilled_at: i64 },
    Exchanged { session_id: u64, fulfilled_at: i64, exchanged_at: i64 },
    Cancelled { cancelled_at: i64 },
}

impl GrantStage {
    pub fn is_pending(&self) -> (r: bool)
        ensures
            r == (*self is Pending),
    {
        matches!(self, GrantStage::Pending)
    }
}

/// An OAuth 2.0 authorization request, from its creation to its exchange.
#[derive(Clone, Debug)]
pub struct AuthorizationGrant {
    pub id: u64,
    pub created_at: i64,
    pub stage: GrantStage,
    pub client_id: String,
    pub redirect_uri: String,
    pub scope: Vec<String>,
    pub state: Option<String>,
    pub nonce: Option<String>,
    pub max_age: Option<u32>,
    pub acr_values: Option<String>,
    pub response_mode: ResponseMode,
    pub code: Option<AuthorizationCode>,
    pub response_type_token: bool,
    pub response_type_id_token: bool,
    pub requires_consent: bool,
}

/// A successful password (or other) check inside a browser session.
#[derive(Clone, Copy, Debug, PartialEq, Eq, Structural)]
pub struct Authentication {
    pub id: u64,
    pub created_at: i64,
}

/// "This browser is logged in as this user".
#[derive(Clone, Copy, Debug, PartialEq, Eq, Structural)]
pub struct BrowserSession {
    pub id: u64,
    pub user_id: u64,
    pub created_at: i64,
    pub finished_at: Option<i64>,
    pub last_authentication: Option<Authentication>,
}

/// Whether the session's last authentication happened at or after `since`.
pub open spec fn authenticated_after(s: BrowserSession, since: int) -> bool {
    s.last_authentication matches Some(a) && a.created_at >= since
}

impl BrowserSession {
    pub fn is_active(&self) -> (r: bool)
        ensures
            r == (self.finished_at is None),
    {
        self.finished_at.is_none()
    }

    /// Whether the last authentication happened at most `max_age` seconds
    /// before `reference` (the time the grant was requested); always true
    /// when no maximum is asked for.
    pub fn was_authenticated_after(&self, max_age: Option<u32>, reference: i64) -> (r: bool)
        ensures
            max_age is None ==> r,
            max_age matches Some(m) ==> r == authenticated_after(*self, reference - m),
    {
        match max_age {
            None => true,
            Some(m) => match self.last_authentication {
                None => false,
                Some(a) => a.created_at as i128 >= reference as i128 - m as i128,
            },
        }
    }
}

/// A registered user.
#[derive(Clone, Debug)]
pub struct User {
    pub id: u64,
    pub username: String,
    pub password_hash: Option<String>,
}

} // verus!
