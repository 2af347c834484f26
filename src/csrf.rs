use vstd::prelude::*;

use crate::encoding::{
    base64url_of, bytes_eq, decode_base64url, encode_base64url, is_base64url, is_base64url_char,
};

verus! {

/// How long a CSRF token stays valid after it was last rendered, in seconds.
pub const CSRF_TTL: i64 = 3600;

/// Relies on `chrono::Utc::now`: the current time as seconds since the Unix
/// epoch; nothing is known of the value.
#[verifier::external_body]
pub(crate) fn now_timestamp() -> (r: i64) {
    chrono::Utc::now().timestamp()
}

/// Relies on `rand::random` (thread-local CSPRNG) for 32 random bytes;
/// nothing is known of the value.
#[verifier::external_body]
pub(crate) fn random_secret() -> (r: [u8; 32]) {
    rand::random::<[u8; 32]>()
}

/// Failed to validate a CSRF token.
#[derive(Clone, Copy, Debug, PartialEq, Eq, Structural)]
pub enum CsrfError {
    /// The token in the form did not match the token in the cookie.
    Mismatch,
    /// There is no CSRF cookie.
    Missing,
    /// The CSRF cookie could not be decrypted or decoded.
    DecodeCookie,
    /// The token expired.
    Expired,
    /// The form value is not valid base64url.
    Decode,
}

/// A CSRF token: a secret and the time (seconds since the Unix epoch) until
/// which it is accepted.
#[derive(Clone, Copy, Debug)]
pub struct CsrfToken {
    pub expiration: i64,
    pub token: [u8; 32],
}

/// What the cookie jar holds under the `csrf` name.
#[derive(Clone, Copy, Debug)]
pub enum CsrfCookie {
    Absent,
    Undecodable,
    Present(CsrfToken),
}

/// How the cookie that holds security state is set: its name, its path,
/// and whether scripts are kept from reading it.
pub struct CookieSettings {
    pub name: &'static str,
    pub path: &'static str,
    pub http_only: bool,
}

/// The settings of the `csrf` cookie: path `/`, HttpOnly.
pub fn csrf_cookie_settings() -> (r: CookieSettings)
    ensures
        r.name@ == "csrf"@,
        r.path@ == "/"@,
        r.http_only,
{
    CookieSettings { name: "csrf", path: "/", http_only: true }
}

/// A form whose submission carries a CSRF value beside its own fields.
pub struct ProtectedForm<T> {
    pub csrf: String,
    pub inner: T,
}

/// `now + ttl`, saturating at the largest timestamp.
pub open spec fn expiry(now: i64, ttl: i64) -> i64 {
    if now as int + ttl as int > i64::MAX as int {
        i64::MAX
    } else {
        (now + ttl) as i64
    }
}

/// Whether a token is still accepted at time `now`.
pub open spec fn unexpired(t: CsrfToken, now: i64) -> bool {
    now < t.expiration
}

/// The token that rendering a form at `now` leaves in the cookie: the
/// secret is kept while the current token is unexpired, the expiration is
/// pushed forward in every case.
pub open spec fn refreshed(cookie: CsrfCookie, now: i64, fresh: Seq<u8>) -> (Seq<u8>, i64) {
    let secret = match cookie {
        CsrfCookie::Present(t) => if unexpired(t, now) {
            t.token@
        } else {
            fresh
        },
        _ => fresh,
    };
    (secret, expiry(now, CSRF_TTL))
}

/// Outcome of checking a form value against a token.
pub open spec fn form_value_check(t: CsrfToken, form: Seq<char>) -> Result<(), CsrfError> {
    if !is_base64url(form) {
        Err(CsrfError::Decode)
    } else if base64url_of(t.token@) != form {
        Err(CsrfError::Mismatch)
    } else {
        Ok(())
    }
}

/// Outcome of checking a submitted form value against the cookie at `now`.
pub open spec fn form_check(cookie: CsrfCookie, form: Seq<char>, now: i64) -> Result<(), CsrfError> {
    match cookie {
        CsrfCookie::Absent => Err(CsrfError::Missing),
        CsrfCookie::Undecodable => Err(CsrfError::DecodeCookie),
        CsrfCookie::Present(t) => if !unexpired(t, now) {
            Err(CsrfError::Expired)
        } else {
            form_value_check(t, form)
        },
    }
}

pub(crate) fn saturating_expiry(now: i64, ttl: i64) -> (r: i64)
    requires
        ttl >= 0,
    ensures
        r == expiry(now, ttl),
{
    if now > i64::MAX - ttl {
        i64::MAX
    } else {
        now + ttl
    }
}

impl CsrfToken {
    /// A token holding `token`, valid for `ttl` seconds from `now`.
    pub fn new_at(token: [u8; 32], ttl: i64, now: i64) -> (r: CsrfToken)
        requires
            ttl >= 0,
        ensures
            r.token == token,
            r.expiration == expiry(now, ttl),
    {
        CsrfToken { expiration: saturating_expiry(now, ttl), token }
    }

    /// A token with a fresh random secret, valid for `ttl` seconds from `now`.
    pub fn generate_at(ttl: i64, now: i64) -> (r: CsrfToken)
        requires
            ttl >= 0,
        ensures
            r.expiration == expiry(now, ttl),
    {
        CsrfToken::new_at(random_secret(), ttl, now)
    }

    /// The same secret with an expiration `ttl` seconds after `now`.
    pub fn refresh_at(self, ttl: i64, now: i64) -> (r: CsrfToken)
        requires
            ttl >= 0,
        ensures
            r.token == self.token,
            r.expiration == expiry(now, ttl),
    {
        CsrfToken::new_at(self.token, ttl, now)
    }

    /// The value to include in HTML forms: the secret in base64url, 43
    /// symbols of the URL-safe alphabet without padding; distinct secrets
    /// give distinct values.
    pub fn form_value(&self) -> (r: String)
        ensures
            r@ == base64url_of(self.token@),
            r@.len() == 43,
            forall|i: int| 0 <= i < r@.len() ==> is_base64url_char(#[trigger] r@[i]),
            forall|c: Seq<u8>| #[trigger] base64url_of(c) == r@ ==> c == self.token@,
    {
        encode_base64url(&self.token)
    }

    /// Checks that a value got from an HTML form decodes to this token's
    /// secret.
    pub fn verify_form_value(&self, form_value: &str) -> (r: Result<(), CsrfError>)
        ensures
            r == form_value_check(*self, form_value@),
    {
        match decode_base64url(form_value) {
            Err(_) => Err(CsrfError::Decode),
            Ok(decoded) => {
                if bytes_eq(&self.token, decoded.as_slice()) {
                    Ok(())
                } else {
                    Err(CsrfError::Mismatch)
                }
            },
        }
    }

    /// Keeps the token if it is unexpired at `now`.
    pub fn verify_expiration_at(self, now: i64) -> (r: Result<CsrfToken, CsrfError>)
        ensures
            unexpired(self, now) ==> r == Ok::<CsrfToken, CsrfError>(self),
            !unexpired(self, now) ==> r == Err::<CsrfToken, CsrfError>(CsrfError::Expired),
    {
        if now < self.expiration {
            Ok(self)
        } else {
            Err(CsrfError::Expired)
        }
    }

    /// Keeps the token if it is unexpired at the current time.
    pub fn verify_expiration(self) -> (r: Result<CsrfToken, CsrfError>)
        ensures
            r is Ok ==> r == Ok::<CsrfToken, CsrfError>(self),
            r is Err ==> r == Err::<CsrfToken, CsrfError>(CsrfError::Expired),
    {
        self.verify_expiration_at(now_timestamp())
    }
}

impl CsrfCookie {
    /// The token to render into a form at `now`, and the cookie to store
    /// back: an unexpired secret is kept, otherwise `fresh` is taken; the
    /// expiration is refreshed either way.
    pub fn csrf_token_at(self, now: i64, fresh: [u8; 32]) -> (r: (CsrfToken, CsrfCookie))
        ensures
            (r.0.token@, r.0.expiration) == refreshed(self, now, fresh@),
            r.1 == CsrfCookie::Present(r.0),
    {
        let current = match self {
            CsrfCookie::Present(t) => match t.verify_expiration_at(now) {
                Ok(t) => t,
                Err(_) => CsrfToken::new_at(fresh, 0, now),
            },
            _ => CsrfToken::new_at(fresh, 0, now),
        };
        let token = current.refresh_at(CSRF_TTL, now);
        (token, CsrfCookie::Present(token))
    }

    /// The token to render into a form now, with a fresh random secret when
    /// the current one is missing or expired.
    pub fn csrf_token(self) -> (r: (CsrfToken, CsrfCookie))
        ensures
            exists|now: i64, fresh: Seq<u8>|
                (r.0.token@, r.0.expiration) == #[trigger] refreshed(self, now, fresh),
            r.1 == CsrfCookie::Present(r.0),
    {
        let fresh = random_secret();
        let now = now_timestamp();
        self.csrf_token_at(now, fresh)
    }

    /// Checks a submitted form against this cookie at `now`, handing back the
    /// form's own fields on success.
    pub fn verify_form_at<T>(&self, form: ProtectedForm<T>, now: i64) -> (r: Result<T, CsrfError>)
        ensures
            form_check(*self, form.csrf@, now) is Ok ==> r == Ok::<T, CsrfError>(form.inner),
            form_check(*self, form.csrf@, now) is Err ==> r == Err::<T, CsrfError>(
                form_check(*self, form.csrf@, now)->Err_0,
            ),
    {
        let token = match self {
            CsrfCookie::Absent => return Err(CsrfError::Missing),
            CsrfCookie::Undecodable => return Err(CsrfError::DecodeCookie),
            CsrfCookie::Present(t) => *t,
        };
        let token = match token.verify_expiration_at(now) {
            Ok(t) => t,
            Err(e) => return Err(e),
        };
        match token.verify_form_value(form.csrf.as_str()) {
            Ok(()) => Ok(form.inner),
            Err(e) => Err(e),
        }
    }

    /// Checks a submitted form against this cookie at the current time.
    pub fn verify_form<T>(&self, form: ProtectedForm<T>) -> (r: Result<T, CsrfError>)
        ensures
            exists|now: i64|
                {
                    &&& #[trigger] form_check(*self, form.csrf@, now) is Ok ==> r == Ok::<
                        T,
                        CsrfError,
                    >(form.inner)
                    &&& form_check(*self, form.csrf@, now) is Err ==> r == Err::<T, CsrfError>(
                        form_check(*self, form.csrf@, now)->Err_0,
                    )
                },
    {
        self.verify_form_at(form, now_timestamp())
    }
}

/// A form value rendered from a token is accepted exactly while the cookie
/// still holds that token's secret and the token is unexpired; a missing or
/// undecodable cookie rejects it.
pub proof fn lemma_csrf_form_round_trip(issued: CsrfToken, cookie: CsrfCookie, now: i64)
    ensures
        cookie is Absent ==> form_check(cookie, base64url_of(issued.token@), now) == Err::<
            (),
            CsrfError,
        >(CsrfError::Missing),
        cookie is Undecodable ==> form_check(cookie, base64url_of(issued.token@), now) == Err::<
            (),
            CsrfError,
        >(CsrfError::DecodeCookie),
        cookie matches CsrfCookie::Present(held) ==> (held.token == issued.token ==> (form_check(
            cookie,
            base64url_of(issued.token@),
            now,
        ) is Ok <==> unexpired(held, now))),
        cookie matches CsrfCookie::Present(held) ==> (form_check(
            cookie,
            base64url_of(issued.token@),
            now,
        ) is Ok ==> unexpired(held, now) && base64url_of(held.token@) == base64url_of(
            issued.token@,
        )),
{
    assert(is_base64url(base64url_of(issued.token@)));
}

} // verus!
