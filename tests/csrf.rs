use mas_authz::csrf::{csrf_cookie_settings, CsrfCookie, CsrfError, CsrfToken, ProtectedForm, CSRF_TTL};

fn form(csrf: &str) -> ProtectedForm<u32> {
    ProtectedForm { csrf: csrf.to_string(), inner: 7 }
}

#[test]
fn form_value_is_base64url_of_secret() {
    let t = CsrfToken::new_at([0u8; 32], 10, 100);
    assert_eq!(t.form_value(), "AAAAAAAAAAAAAAAAAAAAAAAAAAAAAAAAAAAAAAAAAAA");
    assert_eq!(t.expiration, 110);
    let (random, _) = CsrfCookie::Absent.csrf_token();
    let v = random.form_value();
    assert_eq!(v.len(), 43);
    assert!(v.chars().all(|c| c.is_ascii_alphanumeric() || c == '-' || c == '_'));
    let mut secret = [0u8; 32];
    secret[0] = 0xfb;
    secret[1] = 0xff;
    let u = CsrfToken::new_at(secret, 0, 0);
    assert!(u.form_value().starts_with("-_8A"));
}

#[test]
fn rendered_form_value_verifies() {
    let (token, jar) = CsrfCookie::Absent.csrf_token_at(1000, [9u8; 32]);
    assert_eq!(token.token, [9u8; 32]);
    assert_eq!(token.expiration, 1000 + CSRF_TTL);
    let value = token.form_value();
    assert_eq!(jar.verify_form_at(form(&value), 1001), Ok(7));
    assert_eq!(token.verify_form_value(&value), Ok(()));
}

#[test]
fn csrf_token_keeps_unexpired_secret_and_refreshes_expiration() {
    let (first, jar) = CsrfCookie::Absent.csrf_token_at(1000, [1u8; 32]);
    let (second, jar2) = jar.csrf_token_at(2000, [2u8; 32]);
    assert_eq!(second.token, first.token);
    assert_eq!(second.expiration, 2000 + CSRF_TTL);
    assert_eq!(jar2.verify_form_at(form(&first.form_value()), 2001), Ok(7));
}

#[test]
fn csrf_token_replaces_expired_secret() {
    let (first, jar) = CsrfCookie::Absent.csrf_token_at(0, [1u8; 32]);
    let (second, _) = jar.csrf_token_at(first.expiration, [2u8; 32]);
    assert_eq!(second.token, [2u8; 32]);
}

#[test]
fn csrf_token_replaces_undecodable_cookie() {
    let (token, _) = CsrfCookie::Undecodable.csrf_token_at(5, [4u8; 32]);
    assert_eq!(token.token, [4u8; 32]);
}

#[test]
fn csrf_generated_secret_is_random() {
    let (a, _) = CsrfCookie::Absent.csrf_token();
    let (b, _) = CsrfCookie::Absent.csrf_token();
    assert_ne!(a.token, b.token);
    assert!(CsrfToken::generate_at(60, 0).expiration == 60);
}

#[test]
fn csrf_expiration_against_the_clock() {
    let far = CsrfToken::new_at([1u8; 32], 0, i64::MAX);
    assert!(far.verify_expiration().is_ok());
    let past = CsrfToken::new_at([1u8; 32], 0, 0);
    assert_eq!(past.verify_expiration().err(), Some(CsrfError::Expired));
}

#[test]
fn csrf_missing_cookie() {
    assert_eq!(CsrfCookie::Absent.verify_form_at(form("AAAA"), 0), Err(CsrfError::Missing));
}

#[test]
fn csrf_undecodable_cookie() {
    assert_eq!(
        CsrfCookie::Undecodable.verify_form_at(form("AAAA"), 0),
        Err(CsrfError::DecodeCookie)
    );
}

#[test]
fn csrf_expired_token() {
    let (token, jar) = CsrfCookie::Absent.csrf_token_at(0, [3u8; 32]);
    let value = token.form_value();
    assert_eq!(jar.verify_form_at(form(&value), token.expiration), Err(CsrfError::Expired));
    assert_eq!(jar.verify_form_at(form(&value), token.expiration - 1), Ok(7));
    assert!(token.verify_expiration_at(token.expiration).is_err());
}

#[test]
fn csrf_tampered_value() {
    let (_, jar) = CsrfCookie::Absent.csrf_token_at(0, [3u8; 32]);
    assert_eq!(jar.verify_form_at(form("tampered"), 1), Err(CsrfError::Mismatch));
    assert_eq!(jar.verify_form_at(form("tampered!"), 1), Err(CsrfError::Decode));
    let other = CsrfToken::new_at([4u8; 32], 10, 0);
    assert_eq!(jar.verify_form_at(form(&other.form_value()), 1), Err(CsrfError::Mismatch));
}

#[test]
fn csrf_cookie_of_other_jar_rejects() {
    let (issued, _) = CsrfCookie::Absent.csrf_token_at(0, [5u8; 32]);
    let (_, other_jar) = CsrfCookie::Absent.csrf_token_at(0, [6u8; 32]);
    assert_eq!(
        other_jar.verify_form_at(form(&issued.form_value()), 1),
        Err(CsrfError::Mismatch)
    );
}

#[test]
fn csrf_cookie_is_http_only_at_root() {
    let settings = csrf_cookie_settings();
    assert_eq!(settings.name, "csrf");
    assert_eq!(settings.path, "/");
    assert!(settings.http_only);
}
