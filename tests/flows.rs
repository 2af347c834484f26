use mas_authz::client::{AuthMethod, Client};
use mas_authz::csrf::{CsrfCookie, ProtectedForm};
use mas_authz::flow::{GrantCompletionError, GrantError, GrantRequest, GrantRequestError};
use mas_authz::introspection::{IntrospectionRequest, RouteError as IntrospectionError};
use mas_authz::model::{CodeChallengeMethod, GrantStage, Pkce, ResponseMode};
use mas_authz::store::{AuthenticationError, RegisterError, Store};
use mas_authz::token::TokenType;
use mas_authz::token_endpoint::{ClientAuthError, ClientCredentials, TokenError, TokenRequest};
use mas_authz::views::{FormError, LoginForm, NextStep, ReauthForm, ReauthOutcome, RouteError};

const NOW: i64 = 1_700_000_000;

fn web_client() -> Client {
    Client {
        client_id: "web".to_string(),
        redirect_uris: vec!["https://app/cb".to_string()],
        token_endpoint_auth_method: AuthMethod::ClientSecretBasic,
        client_secret: Some("shh".to_string()),
    }
}

fn web_credentials() -> ClientCredentials {
    ClientCredentials {
        client_id: "web".to_string(),
        method: AuthMethod::ClientSecretBasic,
        client_secret: Some("shh".to_string()),
    }
}

fn code_request(scope: &str) -> GrantRequest {
    GrantRequest {
        client_id: "web".to_string(),
        redirect_uri: Some("https://app/cb".to_string()),
        scope: scope.to_string(),
        state: Some("xyz".to_string()),
        nonce: None,
        max_age: None,
        acr_values: None,
        response_mode: ResponseMode::Query,
        response_type_code: true,
        response_type_token: false,
        response_type_id_token: false,
        pkce: None,
        requires_consent: false,
    }
}

fn setup() -> Store {
    let mut store = Store::new();
    store.register_user("alice", "p@ss").unwrap();
    store.register_client(web_client()).unwrap();
    store
}

/// Runs a grant through login, consent and completion; returns the code.
fn authorize(store: &mut Store, req: GrantRequest) -> (u64, u64, String) {
    let grant = store.new_authorization_grant(req, NOW).unwrap();
    match store.authorization_step(grant, None, NOW).unwrap() {
        NextStep::Login { continue_grant } => assert_eq!(continue_grant, grant),
        _ => panic!("expected a login redirect"),
    }
    let session = store.login("alice", "p@ss", NOW).unwrap();
    match store.authorization_step(grant, Some(session), NOW).unwrap() {
        NextStep::Consent { grant_id } => assert_eq!(grant_id, grant),
        _ => panic!("expected the consent page"),
    }
    store.give_consent(grant, session).unwrap();
    match store.authorization_step(grant, Some(session), NOW).unwrap() {
        NextStep::Callback(resp) => {
            assert_eq!(resp.redirect_uri, "https://app/cb");
            assert_eq!(resp.state.as_deref(), Some("xyz"));
            let code = resp.code.clone().unwrap();
            if resp.response_mode == ResponseMode::Query {
                assert_eq!(
                    resp.callback_location(),
                    Some(format!("https://app/cb?code={}&state=xyz", code))
                );
            }
            (grant, session, code)
        }
        _ => panic!("expected the callback"),
    }
}

fn introspect(store: &Store, token: &str, now: i64) -> Result<bool, IntrospectionError> {
    let form = IntrospectionRequest { token: token.to_string(), token_type_hint: None };
    store.post(&web_credentials(), Some(form), now).map(|r| r.active)
}

#[test]
fn happy_code_flow() {
    let mut store = setup();
    let (grant, _, code) = authorize(&mut store, code_request("openid"));
    let tokens = store
        .exchange_code(&web_credentials(), &code, "https://app/cb", None, NOW + 1)
        .unwrap();
    assert_eq!(tokens.expires_in, 300);
    assert_eq!(TokenType::check(&tokens.access_token), Ok(TokenType::AccessToken));
    assert_eq!(TokenType::check(&tokens.refresh_token), Ok(TokenType::RefreshToken));
    assert!(matches!(store.get_grant_by_id(grant).unwrap().stage, GrantStage::Exchanged { .. }));
    assert_eq!(introspect(&store, &tokens.access_token, NOW + 2), Ok(true));
    let form = IntrospectionRequest { token: tokens.access_token.clone(), token_type_hint: None };
    let resp = store.post(&web_credentials(), Some(form), NOW + 2).unwrap();
    assert_eq!(resp.scope.as_deref(), Some("openid"));
    assert_eq!(resp.client_id.as_deref(), Some("web"));
    assert_eq!(resp.username.as_deref(), Some("alice"));
    assert_eq!(resp.exp, Some(NOW + 1 + 300));
    assert_eq!(resp.iat, Some(NOW + 1));
    assert_eq!(resp.token_type, Some(TokenType::AccessToken));
}

#[test]
fn access_token_expires() {
    let mut store = setup();
    let (_, _, code) = authorize(&mut store, code_request("openid"));
    let tokens = store.exchange_code(&web_credentials(), &code, "https://app/cb", None, NOW).unwrap();
    assert_eq!(introspect(&store, &tokens.access_token, NOW + 299), Ok(true));
    assert_eq!(
        introspect(&store, &tokens.access_token, NOW + 300),
        Err(IntrospectionError::UnknownToken)
    );
}

#[test]
fn code_replay_revokes_tokens() {
    let mut store = setup();
    let (_, _, code) = authorize(&mut store, code_request("openid"));
    let tokens = store.exchange_code(&web_credentials(), &code, "https://app/cb", None, NOW).unwrap();
    let replay = store.exchange_code(&web_credentials(), &code, "https://app/cb", None, NOW + 1);
    assert_eq!(replay.err(), Some(TokenError::InvalidGrant));
    assert_eq!(TokenError::InvalidGrant.error_code(), "invalid_grant");
    assert_eq!(TokenError::InvalidGrant.status_code(), 400);
    assert_eq!(
        introspect(&store, &tokens.access_token, NOW + 2),
        Err(IntrospectionError::UnknownToken)
    );
    assert_eq!(
        introspect(&store, &tokens.refresh_token, NOW + 2),
        Err(IntrospectionError::UnknownToken)
    );
    let (status, body) = IntrospectionError::UnknownToken.into_response();
    assert_eq!(status, 200);
    assert!(!body.unwrap().active);
}

#[test]
fn refresh_rotation() {
    let mut store = setup();
    let (_, _, code) = authorize(&mut store, code_request("openid"));
    let first = store.exchange_code(&web_credentials(), &code, "https://app/cb", None, NOW).unwrap();
    let second = store.refresh(&web_credentials(), &first.refresh_token, NOW + 10).unwrap();
    assert_ne!(second.access_token, first.access_token);
    assert_ne!(second.refresh_token, first.refresh_token);
    assert_eq!(introspect(&store, &first.access_token, NOW + 11), Err(IntrospectionError::UnknownToken));
    assert_eq!(introspect(&store, &second.access_token, NOW + 11), Ok(true));
    let replay = store.refresh(&web_credentials(), &first.refresh_token, NOW + 12);
    assert_eq!(replay.err(), Some(TokenError::InvalidGrant));
    assert_eq!(introspect(&store, &second.access_token, NOW + 13), Err(IntrospectionError::UnknownToken));
    assert_eq!(
        store.refresh(&web_credentials(), &second.refresh_token, NOW + 14).err(),
        Some(TokenError::InvalidGrant)
    );
}

#[test]
fn refresh_chain_has_one_unconsumed_token() {
    let mut store = setup();
    let (_, _, code) = authorize(&mut store, code_request("openid"));
    let mut pair = store.exchange_code(&web_credentials(), &code, "https://app/cb", None, NOW).unwrap();
    for k in 1..5 {
        pair = store.refresh(&web_credentials(), &pair.refresh_token, NOW + k).unwrap();
    }
    let unconsumed = store.refresh_tokens.iter().filter(|t| t.consumed_at.is_none()).count();
    assert_eq!(store.refresh_tokens.len(), 5);
    assert_eq!(unconsumed, 1);
    for (i, t) in store.refresh_tokens.iter().enumerate().take(4) {
        assert_eq!(t.next_refresh_token_id, Some(i as u64 + 1));
    }
}

#[test]
fn refresh_with_access_token_is_refused() {
    let mut store = setup();
    let (_, _, code) = authorize(&mut store, code_request("openid"));
    let pair = store.exchange_code(&web_credentials(), &code, "https://app/cb", None, NOW).unwrap();
    assert_eq!(
        store.refresh(&web_credentials(), &pair.access_token, NOW + 1).err(),
        Some(TokenError::InvalidGrant)
    );
}

#[test]
fn pkce_s256() {
    let mut store = setup();
    let mut req = code_request("openid");
    req.pkce = Some(Pkce {
        challenge_method: CodeChallengeMethod::S256,
        challenge: "E9Melhoa2OwvFrEMTJguCHaoeK1t8URWbuGJSstw-cM".to_string(),
    });
    let (_, _, code) = authorize(&mut store, req);
    let wrong = store.exchange_code(&web_credentials(), &code, "https://app/cb", Some("wrong-verifier"), NOW);
    assert_eq!(wrong.err(), Some(TokenError::InvalidGrant));
    let missing = store.exchange_code(&web_credentials(), &code, "https://app/cb", None, NOW);
    assert_eq!(missing.err(), Some(TokenError::InvalidGrant));
    let right = store.exchange_code(
        &web_credentials(),
        &code,
        "https://app/cb",
        Some("dBjftJeZ4CVP-mB92K27uhbUJU1p1r_wW1gFWFOEjXk"),
        NOW,
    );
    assert!(right.is_ok());
}

#[test]
fn pkce_plain() {
    let mut store = setup();
    let mut req = code_request("openid");
    req.pkce = Some(Pkce { challenge_method: CodeChallengeMethod::Plain, challenge: "abc".to_string() });
    let (_, _, code) = authorize(&mut store, req);
    assert!(store.exchange_code(&web_credentials(), &code, "https://app/cb", Some("abd"), NOW).is_err());
    assert!(store.exchange_code(&web_credentials(), &code, "https://app/cb", Some("abc"), NOW).is_ok());
}

#[test]
fn exchange_checks_redirect_uri_and_client() {
    let mut store = setup();
    store
        .register_client(Client {
            client_id: "other".to_string(),
            redirect_uris: vec!["https://other/cb".to_string()],
            token_endpoint_auth_method: AuthMethod::ClientSecretPost,
            client_secret: Some("s".to_string()),
        })
        .unwrap();
    let (_, _, code) = authorize(&mut store, code_request("openid"));
    assert_eq!(
        store.exchange_code(&web_credentials(), &code, "https://app/other", None, NOW).err(),
        Some(TokenError::InvalidGrant)
    );
    let other = ClientCredentials {
        client_id: "other".to_string(),
        method: AuthMethod::ClientSecretPost,
        client_secret: Some("s".to_string()),
    };
    assert_eq!(
        store.exchange_code(&other, &code, "https://app/cb", None, NOW).err(),
        Some(TokenError::InvalidGrant)
    );
    assert_eq!(
        store.exchange_code(&web_credentials(), "no-such-code", "https://app/cb", None, NOW).err(),
        Some(TokenError::InvalidGrant)
    );
    assert!(store.exchange_code(&web_credentials(), &code, "https://app/cb", None, NOW).is_ok());
}

#[test]
fn client_authentication_errors() {
    let mut store = setup();
    let (_, _, code) = authorize(&mut store, code_request("openid"));
    let bad_secret = ClientCredentials { client_secret: Some("nope".to_string()), ..web_credentials() };
    let err = store.exchange_code(&bad_secret, &code, "https://app/cb", None, NOW).err().unwrap();
    assert_eq!(err, TokenError::InvalidClient(ClientAuthError::InvalidSecret));
    assert_eq!(err.status_code(), 401);
    assert_eq!(err.error_code(), "invalid_client");
    let wrong_method = ClientCredentials { method: AuthMethod::ClientSecretPost, ..web_credentials() };
    assert_eq!(
        store.authenticate_client(&wrong_method),
        Err(ClientAuthError::MethodMismatch)
    );
    let unknown = ClientCredentials { client_id: "ghost".to_string(), ..web_credentials() };
    assert_eq!(store.authenticate_client(&unknown), Err(ClientAuthError::ClientNotFound));
    assert!(store.authenticate_client(&web_credentials()).is_ok());
}

#[test]
fn introspection_refuses_public_clients() {
    let mut store = setup();
    store
        .register_client(Client {
            client_id: "spa".to_string(),
            redirect_uris: vec!["https://spa/cb".to_string()],
            token_endpoint_auth_method: AuthMethod::NoAuthentication,
            client_secret: None,
        })
        .unwrap();
    let public = ClientCredentials {
        client_id: "spa".to_string(),
        method: AuthMethod::NoAuthentication,
        client_secret: None,
    };
    let form = IntrospectionRequest { token: "x".to_string(), token_type_hint: None };
    let err = store.post(&public, Some(form), NOW).err().unwrap();
    assert_eq!(err, IntrospectionError::NotAllowed);
    assert_eq!(err.status_code(), 401);
    assert_eq!(store.post(&web_credentials(), None, NOW).err(), Some(IntrospectionError::BadRequest));
    let ghost = ClientCredentials { client_id: "ghost".to_string(), ..web_credentials() };
    let form = IntrospectionRequest { token: "x".to_string(), token_type_hint: None };
    assert_eq!(store.post(&ghost, Some(form), NOW).err(), Some(IntrospectionError::ClientNotFound));
    let bad = ClientCredentials { client_secret: None, ..web_credentials() };
    let form = IntrospectionRequest { token: "x".to_string(), token_type_hint: None };
    assert_eq!(
        store.post(&bad, Some(form), NOW).err(),
        Some(IntrospectionError::ClientCredentialsVerification(ClientAuthError::InvalidSecret))
    );
}

#[test]
fn introspection_of_malformed_token_and_wrong_hint() {
    let mut store = setup();
    assert_eq!(introspect(&store, "garbage", NOW), Err(IntrospectionError::UnknownToken));
    let (_, _, code) = authorize(&mut store, code_request("openid"));
    let pair = store.exchange_code(&web_credentials(), &code, "https://app/cb", None, NOW).unwrap();
    let hinted = IntrospectionRequest {
        token: pair.access_token.clone(),
        token_type_hint: Some(TokenType::RefreshToken),
    };
    assert_eq!(store.post(&web_credentials(), Some(hinted), NOW).err(), Some(IntrospectionError::UnknownToken));
    let refresh = IntrospectionRequest { token: pair.refresh_token.clone(), token_type_hint: None };
    let resp = store.post(&web_credentials(), Some(refresh), NOW).unwrap();
    assert!(resp.active);
    assert_eq!(resp.exp, None);
    assert_eq!(resp.token_type, Some(TokenType::RefreshToken));
}

#[test]
fn csrf_protected_login() {
    let mut store = setup();
    let (token, jar) = CsrfCookie::Absent.csrf_token_at(NOW, [7u8; 32]);
    let form = ProtectedForm {
        csrf: token.form_value(),
        inner: LoginForm { username: "alice".to_string(), password: "p@ss".to_string() },
    };
    assert!(store.login_post(jar, form, NOW + 1).is_ok());
    let tampered = ProtectedForm {
        csrf: "tampered".to_string(),
        inner: LoginForm { username: "alice".to_string(), password: "p@ss".to_string() },
    };
    assert!(matches!(store.login_post(jar, tampered, NOW + 1), Err(FormError::Csrf(_))));
    let wrong = ProtectedForm {
        csrf: token.form_value(),
        inner: LoginForm { username: "alice".to_string(), password: "nope".to_string() },
    };
    assert_eq!(
        store.login_post(jar, wrong, NOW + 1).err(),
        Some(FormError::Authentication(AuthenticationError::InvalidCredentials))
    );
}

#[test]
fn max_auth_time_forces_reauth() {
    let mut store = setup();
    let session = store.login("alice", "p@ss", NOW).unwrap();
    let mut req = code_request("openid");
    req.max_age = Some(0);
    let grant = store.new_authorization_grant(req, NOW + 5).unwrap();
    store.give_consent(grant, session).unwrap();
    match store.authorization_step(grant, Some(session), NOW + 5).unwrap() {
        NextStep::Reauth { continue_grant } => assert_eq!(continue_grant, grant),
        _ => panic!("expected a reauthentication redirect"),
    }
    let (token, jar) = CsrfCookie::Absent.csrf_token_at(NOW + 5, [8u8; 32]);
    let form = ProtectedForm { csrf: token.form_value(), inner: ReauthForm { password: "p@ss".to_string() } };
    assert_eq!(store.reauth_post(jar, form, Some(session), NOW + 5), Ok(ReauthOutcome::Continue));
    // freshness is measured from the grant's request, so completing later works
    match store.authorization_step(grant, Some(session), NOW + 50).unwrap() {
        NextStep::Callback(resp) => assert!(resp.code.is_some()),
        _ => panic!("expected the callback"),
    }
}

#[test]
fn reauth_without_session_goes_to_login() {
    let mut store = setup();
    let (token, jar) = CsrfCookie::Absent.csrf_token_at(NOW, [8u8; 32]);
    let form = ProtectedForm { csrf: token.form_value(), inner: ReauthForm { password: "p@ss".to_string() } };
    assert_eq!(store.reauth_post(jar, form, None, NOW), Ok(ReauthOutcome::Login));
}

#[test]
fn consent_covers_exchanged_grant_scopes() {
    let mut store = setup();
    let (_, session, code) = authorize(&mut store, code_request("openid profile"));
    store.exchange_code(&web_credentials(), &code, "https://app/cb", None, NOW).unwrap();
    let user = store.browser_sessions[session as usize].user_id;
    let consent = store.fetch_consent(user, "web");
    assert!(consent.contains(&"openid".to_string()));
    assert!(consent.contains(&"profile".to_string()));
    assert!(store.fetch_consent(user, "other").is_empty());
}

#[test]
fn device_scopes_need_no_consent() {
    let mut store = setup();
    let session = store.login("alice", "p@ss", NOW).unwrap();
    let user = store.browser_sessions[session as usize].user_id;
    store.record_consent(user, "web", &vec!["openid".to_string()]);
    let grant = store
        .new_authorization_grant(code_request("openid urn:matrix:device:ABCD"), NOW)
        .unwrap();
    assert!(matches!(store.authorization_step(grant, Some(session), NOW), Ok(NextStep::Callback(_))));
    // fulfilling records the whole scope, device scope included
    assert!(store.fetch_consent(user, "web").contains(&"urn:matrix:device:ABCD".to_string()));
}

#[test]
fn explicit_consent_request_is_honoured() {
    let mut store = setup();
    let session = store.login("alice", "p@ss", NOW).unwrap();
    let user = store.browser_sessions[session as usize].user_id;
    store.record_consent(user, "web", &vec!["openid".to_string()]);
    let mut req = code_request("openid");
    req.requires_consent = true;
    let grant = store.new_authorization_grant(req, NOW).unwrap();
    assert_eq!(
        store.complete(grant, session, NOW).err(),
        Some(GrantCompletionError::RequiresConsent)
    );
}

#[test]
fn implicit_token_response() {
    let mut store = setup();
    let session = store.login("alice", "p@ss", NOW).unwrap();
    let mut req = code_request("openid");
    req.response_type_code = false;
    req.response_type_token = true;
    req.response_mode = ResponseMode::Fragment;
    let grant = store.new_authorization_grant(req, NOW).unwrap();
    store.give_consent(grant, session).unwrap();
    let resp = store.complete(grant, session, NOW).unwrap();
    assert!(resp.code.is_none());
    let pair = resp.response.unwrap();
    assert_eq!(pair.expires_in, 300);
    assert_eq!(introspect(&store, &pair.access_token, NOW + 1), Ok(true));
}

#[test]
fn completion_errors() {
    let mut store = setup();
    let session = store.login("alice", "p@ss", NOW).unwrap();
    assert_eq!(store.complete(99, session, NOW).err(), Some(GrantCompletionError::NotFound));
    let grant = store.new_authorization_grant(code_request("openid"), NOW).unwrap();
    assert_eq!(store.complete(grant, 42, NOW).err(), Some(GrantCompletionError::InactiveSession));
    store.cancel_grant(grant, NOW).unwrap();
    assert_eq!(store.complete(grant, session, NOW).err(), Some(GrantCompletionError::NotPending));
    assert_eq!(store.authorization_step(grant, Some(session), NOW).err(), Some(RouteError::NotPending));
    assert_eq!(RouteError::NotPending.status_code(), 400);
    assert_eq!(store.authorization_step(99, Some(session), NOW).err(), Some(RouteError::NotFound));
    assert_eq!(store.cancel_grant(grant, NOW), Err(GrantError::NotPending));
    assert_eq!(store.cancel_grant(99, NOW), Err(GrantError::NotFound));
}

#[test]
fn logout_ends_session() {
    let mut store = setup();
    let session = store.login("alice", "p@ss", NOW).unwrap();
    assert!(store.end_session(session, NOW + 1));
    assert!(!store.end_session(session, NOW + 2));
    let grant = store.new_authorization_grant(code_request("openid"), NOW).unwrap();
    assert!(matches!(
        store.authorization_step(grant, Some(session), NOW + 3),
        Ok(NextStep::Login { .. })
    ));
}

#[test]
fn grant_request_errors() {
    let mut store = setup();
    let mut req = code_request("openid");
    req.client_id = "ghost".to_string();
    assert_eq!(store.new_authorization_grant(req, NOW).err(), Some(GrantRequestError::UnknownClient));
    let mut req = code_request("");
    req.scope = "open  id".to_string();
    assert_eq!(store.new_authorization_grant(req, NOW).err(), Some(GrantRequestError::InvalidScope));
    let mut req = code_request("openid");
    req.response_type_code = false;
    assert_eq!(
        store.new_authorization_grant(req, NOW).err(),
        Some(GrantRequestError::MissingResponseType)
    );
    let mut req = code_request("openid");
    req.response_type_token = true;
    assert_eq!(
        store.new_authorization_grant(req, NOW).err(),
        Some(GrantRequestError::InvalidResponseMode)
    );
    let mut req = code_request("openid");
    req.response_type_code = false;
    req.response_type_token = true;
    req.response_mode = ResponseMode::Fragment;
    req.pkce = Some(Pkce { challenge_method: CodeChallengeMethod::Plain, challenge: "a".to_string() });
    assert_eq!(store.new_authorization_grant(req, NOW).err(), Some(GrantRequestError::PkceWithoutCode));
    let mut req = code_request("openid");
    req.redirect_uri = Some("https://evil/cb".to_string());
    assert!(matches!(
        store.new_authorization_grant(req, NOW),
        Err(GrantRequestError::InvalidRedirectUri(_))
    ));
    let mut req = code_request("openid");
    req.redirect_uri = None;
    assert!(store.new_authorization_grant(req, NOW).is_ok());
}

#[test]
fn expired_grants_are_cancelled() {
    let mut store = setup();
    let old = store.new_authorization_grant(code_request("openid"), NOW).unwrap();
    let young = store.new_authorization_grant(code_request("openid"), NOW + 500).unwrap();
    store.cancel_expired_grants(NOW + 600);
    assert_eq!(
        store.get_grant_by_id(old).unwrap().stage,
        GrantStage::Cancelled { cancelled_at: NOW + 600 }
    );
    assert_eq!(store.get_grant_by_id(young).unwrap().stage, GrantStage::Pending);
}

#[test]
fn codes_are_unique_and_found() {
    let mut store = setup();
    let a = store.new_authorization_grant(code_request("openid"), NOW).unwrap();
    let b = store.new_authorization_grant(code_request("openid"), NOW).unwrap();
    let code_a = store.get_grant_by_id(a).unwrap().code.as_ref().unwrap().code.clone();
    let code_b = store.get_grant_by_id(b).unwrap().code.as_ref().unwrap().code.clone();
    assert_ne!(code_a, code_b);
    assert_eq!(store.lookup_grant_by_code(&code_a), Some(a));
    assert_eq!(store.lookup_grant_by_code(&code_b), Some(b));
    assert_eq!(store.lookup_grant_by_code("nope"), None);
}

#[test]
fn registration_and_login_errors() {
    let mut store = setup();
    assert_eq!(store.register_user("alice", "other"), Err(RegisterError::UsernameTaken));
    assert_eq!(store.login("bob", "p@ss", NOW), Err(AuthenticationError::InvalidCredentials));
    assert_eq!(store.login("alice", "wrong", NOW), Err(AuthenticationError::InvalidCredentials));
    assert_eq!(store.find_user("alice"), Some(0));
    assert!(store.users[0].password_hash.as_ref().unwrap().starts_with("$argon2id$"));
    assert_eq!(
        store.authenticate_session(7, "p@ss", NOW),
        Err(AuthenticationError::InactiveSession)
    );
    assert!(store.register_client(web_client()).is_err());
}

#[test]
fn token_endpoint_dispatch() {
    let mut store = setup();
    let (_, _, code) = authorize(&mut store, code_request("openid"));
    assert_eq!(
        store.token(&web_credentials(), TokenRequest::ClientCredentials, NOW).err(),
        Some(TokenError::UnsupportedGrantType)
    );
    assert_eq!(TokenError::UnsupportedGrantType.error_code(), "unsupported_grant_type");
    let pair = store
        .token(
            &web_credentials(),
            TokenRequest::AuthorizationCode {
                code,
                redirect_uri: "https://app/cb".to_string(),
                code_verifier: None,
            },
            NOW,
        )
        .unwrap();
    let next = store
        .token(&web_credentials(), TokenRequest::RefreshToken { refresh_token: pair.refresh_token.clone() }, NOW + 1)
        .unwrap();
    assert!(store.lookup_active_refresh_token(&pair.refresh_token).is_none());
    assert!(store.lookup_active_refresh_token(&next.refresh_token).is_some());
    assert!(store.lookup_active_access_token(&pair.access_token, NOW + 2).is_none());
    assert!(store.lookup_active_access_token(&next.access_token, NOW + 2).is_some());
}

#[test]
fn grant_stage_transitions() {
    let mut store = setup();
    let session = store.login("alice", "p@ss", NOW).unwrap();
    let grant = store.new_authorization_grant(code_request("openid"), NOW).unwrap();
    assert_eq!(store.exchange_grant(grant, NOW), Err(GrantError::NotFulfilled));
    assert_eq!(store.fulfill_grant(grant, 77, NOW), Err(GrantError::InactiveSession));
    let oauth_session = store.fulfill_grant(grant, session, NOW + 1).unwrap();
    assert_eq!(
        store.get_grant_by_id(grant).unwrap().stage,
        GrantStage::Fulfilled { session_id: oauth_session, fulfilled_at: NOW + 1 }
    );
    assert_eq!(store.fulfill_grant(grant, session, NOW + 2), Err(GrantError::NotPending));
    assert_eq!(store.exchange_grant(grant, NOW + 3), Ok(()));
    assert_eq!(
        store.get_grant_by_id(grant).unwrap().stage,
        GrantStage::Exchanged { session_id: oauth_session, fulfilled_at: NOW + 1, exchanged_at: NOW + 3 }
    );
    let user = store.browser_sessions[session as usize].user_id;
    assert!(store.fetch_consent(user, "web").contains(&"openid".to_string()));
}

#[test]
fn fragment_callback_carries_tokens() {
    let mut store = setup();
    let session = store.login("alice", "p@ss", NOW).unwrap();
    let mut req = code_request("openid");
    req.response_type_code = false;
    req.response_type_token = true;
    req.response_mode = ResponseMode::Fragment;
    let grant = store.new_authorization_grant(req, NOW).unwrap();
    store.give_consent(grant, session).unwrap();
    let resp = store.complete(grant, session, NOW).unwrap();
    let pair = resp.response.as_ref().unwrap();
    let expected = format!(
        "https://app/cb#access_token={}&token_type=Bearer&expires_in=300&refresh_token={}&state=xyz",
        pair.access_token, pair.refresh_token
    );
    assert_eq!(resp.callback_location(), Some(expected));
}

#[test]
fn form_post_has_no_location() {
    let mut store = setup();
    let session = store.login("alice", "p@ss", NOW).unwrap();
    let mut req = code_request("openid");
    req.response_mode = ResponseMode::FormPost;
    let grant = store.new_authorization_grant(req, NOW).unwrap();
    store.give_consent(grant, session).unwrap();
    let resp = store.complete(grant, session, NOW).unwrap();
    assert_eq!(resp.callback_location(), None);
}

#[test]
fn duplicate_code_only_when_taken() {
    let mut store = setup();
    let a = store.new_authorization_grant_with_code(code_request("openid"), "c1".to_string(), NOW);
    assert!(a.is_ok());
    let b = store.new_authorization_grant_with_code(code_request("openid"), "c1".to_string(), NOW);
    assert_eq!(b.err(), Some(GrantRequestError::DuplicateCode));
    let c = store.new_authorization_grant_with_code(code_request("openid"), "c2".to_string(), NOW);
    assert_eq!(store.lookup_grant_by_code("c2"), Some(c.unwrap()));
    let mut implicit = code_request("openid");
    implicit.response_type_code = false;
    implicit.response_type_token = true;
    implicit.response_mode = ResponseMode::Fragment;
    let d = store.new_authorization_grant_with_code(implicit, "c1".to_string(), NOW).unwrap();
    assert!(store.get_grant_by_id(d).unwrap().code.is_none());
    let mut with_acr = code_request("openid");
    with_acr.acr_values = Some("urn:acr:1".to_string());
    let e = store.new_authorization_grant(with_acr, NOW).unwrap();
    assert_eq!(store.get_grant_by_id(e).unwrap().acr_values.as_deref(), Some("urn:acr:1"));
}

#[test]
fn not_pending_is_refused_before_login() {
    let mut store = setup();
    let grant = store.new_authorization_grant(code_request("openid"), NOW).unwrap();
    store.cancel_grant(grant, NOW).unwrap();
    assert_eq!(store.authorization_step(grant, None, NOW).err(), Some(RouteError::NotPending));
}

#[test]
fn id_token_claims_are_built() {
    let mut store = setup();
    let session = store.login("alice", "p@ss", NOW).unwrap();
    let mut req = code_request("openid");
    req.response_type_id_token = true;
    req.response_mode = ResponseMode::Fragment;
    req.nonce = Some("n-0S6".to_string());
    let grant = store.new_authorization_grant(req, NOW).unwrap();
    store.give_consent(grant, session).unwrap();
    let resp = store.complete(grant, session, NOW + 3).unwrap();
    let claims = resp.id_token.unwrap();
    assert_eq!(claims.sub, 0);
    assert_eq!(claims.aud, "web");
    assert_eq!(claims.nonce.as_deref(), Some("n-0S6"));
    assert_eq!(claims.auth_time, Some(NOW));
    assert_eq!(claims.iat, NOW + 3);
    assert_eq!(claims.exp, NOW + 3 + 300);
}

#[test]
fn issued_token_texts_are_unique_and_carry_their_row() {
    let mut store = setup();
    let (_, _, code) = authorize(&mut store, code_request("openid"));
    let mut pair = store.exchange_code(&web_credentials(), &code, "https://app/cb", None, NOW).unwrap();
    for k in 1..4 {
        pair = store.refresh(&web_credentials(), &pair.refresh_token, NOW + k).unwrap();
    }
    for (i, t) in store.access_tokens.iter().enumerate() {
        assert!(t.token[..t.token.len() - 7].ends_with(&format!("-{}", i)));
        assert_eq!(TokenType::check(&t.token), Ok(TokenType::AccessToken));
    }
    let mut texts: Vec<&String> = store.access_tokens.iter().map(|t| &t.token).collect();
    texts.extend(store.refresh_tokens.iter().map(|t| &t.token));
    let n = texts.len();
    texts.sort();
    texts.dedup();
    assert_eq!(texts.len(), n);
}

#[test]
fn access_token_outlives_logout_until_expiry() {
    let mut store = setup();
    let (_, session, code) = authorize(&mut store, code_request("openid"));
    let pair = store.exchange_code(&web_credentials(), &code, "https://app/cb", None, NOW).unwrap();
    assert!(store.end_session(session, NOW + 1));
    assert_eq!(introspect(&store, &pair.access_token, NOW + 2), Ok(true));
    assert_eq!(
        introspect(&store, &pair.refresh_token, NOW + 2),
        Err(IntrospectionError::UnknownToken)
    );
}

#[test]
fn redirect_uri_text_is_kept_for_the_exchange() {
    let mut store = Store::new();
    store.register_user("alice", "p@ss").unwrap();
    store
        .register_client(Client {
            client_id: "web".to_string(),
            redirect_uris: vec!["https://app".to_string()],
            token_endpoint_auth_method: AuthMethod::ClientSecretBasic,
            client_secret: Some("shh".to_string()),
        })
        .unwrap();
    let mut req = code_request("openid");
    req.redirect_uri = Some("https://app".to_string());
    let (_, _, code) = authorize_to(&mut store, req, "https://app");
    assert!(store.exchange_code(&web_credentials(), &code, "https://app", None, NOW).is_ok());
}

fn authorize_to(store: &mut Store, req: GrantRequest, uri: &str) -> (u64, u64, String) {
    let grant = store.new_authorization_grant(req, NOW).unwrap();
    let session = store.login("alice", "p@ss", NOW).unwrap();
    store.give_consent(grant, session).unwrap();
    match store.authorization_step(grant, Some(session), NOW).unwrap() {
        NextStep::Callback(resp) => {
            assert_eq!(resp.redirect_uri, uri);
            (grant, session, resp.code.unwrap())
        }
        _ => panic!("expected the callback"),
    }
}
