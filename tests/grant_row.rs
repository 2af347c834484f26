use mas_authz::browser_error::{error_destination, ErrorDestination, RedirectUriLookupError};
use mas_authz::client::{AuthMethod, Client, InvalidRedirectUriError};
use mas_authz::discovery::provider_metadata;
use mas_authz::grant::{DatabaseInconsistencyError, GrantLookup};
use mas_authz::model::{CodeChallengeMethod, GrantStage, ResponseMode};
use mas_authz::scope::parse_scope;
use mas_authz::store::Store;

fn pending_row() -> GrantLookup {
    GrantLookup {
        grant_id: 4,
        grant_created_at: 100,
        grant_cancelled_at: None,
        grant_fulfilled_at: None,
        grant_exchanged_at: None,
        grant_scope: "openid profile".to_string(),
        grant_state: Some("xyz".to_string()),
        grant_redirect_uri: "HTTPS://App:443/cb".to_string(),
        grant_response_mode: "query".to_string(),
        grant_nonce: None,
        grant_max_age: Some(0),
        grant_acr_values: None,
        grant_response_type_code: true,
        grant_response_type_token: false,
        grant_response_type_id_token: false,
        grant_requires_consent: false,
        grant_code: Some("c0de".to_string()),
        grant_code_challenge: Some("ch".to_string()),
        grant_code_challenge_method: Some("S256".to_string()),
        client_id: "web".to_string(),
        session_id: None,
        user_session_id: None,
        user_session_created_at: None,
        user_id: None,
        user_username: None,
        user_session_last_authentication_id: None,
        user_session_last_authentication_created_at: None,
    }
}

fn with_session(mut row: GrantLookup) -> GrantLookup {
    row.session_id = Some(3);
    row.user_session_id = Some(2);
    row.user_session_created_at = Some(50);
    row.user_id = Some(1);
    row.user_username = Some("alice".to_string());
    row.user_session_last_authentication_id = Some(9);
    row.user_session_last_authentication_created_at = Some(60);
    row
}

#[test]
fn pending_row_reads_back() {
    let loaded = pending_row().try_into_grant().unwrap();
    let g = loaded.grant;
    assert_eq!(g.id, 4);
    assert_eq!(g.stage, GrantStage::Pending);
    assert_eq!(g.scope, vec!["openid".to_string(), "profile".to_string()]);
    assert_eq!(g.redirect_uri, "https://app/cb");
    assert_eq!(g.response_mode, ResponseMode::Query);
    assert_eq!(g.max_age, Some(0));
    let code = g.code.unwrap();
    assert_eq!(code.code, "c0de");
    assert_eq!(code.pkce.unwrap().challenge_method, CodeChallengeMethod::S256);
    assert!(loaded.session.is_none());
}

#[test]
fn fulfilled_and_exchanged_rows_read_back() {
    let mut row = with_session(pending_row());
    row.grant_fulfilled_at = Some(110);
    let loaded = row.try_into_grant().unwrap();
    assert_eq!(loaded.grant.stage, GrantStage::Fulfilled { session_id: 3, fulfilled_at: 110 });
    let (bs, user) = loaded.session.unwrap();
    assert_eq!(bs.id, 2);
    assert_eq!(bs.last_authentication.unwrap().created_at, 60);
    assert_eq!(user.username, "alice");

    let mut row = with_session(pending_row());
    row.grant_fulfilled_at = Some(110);
    row.grant_exchanged_at = Some(120);
    assert_eq!(
        row.try_into_grant().unwrap().grant.stage,
        GrantStage::Exchanged { session_id: 3, fulfilled_at: 110, exchanged_at: 120 }
    );
}

#[test]
fn cancelled_row_reads_back() {
    let mut row = pending_row();
    row.grant_cancelled_at = Some(130);
    assert_eq!(
        row.try_into_grant().unwrap().grant.stage,
        GrantStage::Cancelled { cancelled_at: 130 }
    );
}

#[test]
fn inconsistent_stage_rows_are_refused() {
    // exchanged without fulfilled
    let mut row = with_session(pending_row());
    row.grant_exchanged_at = Some(120);
    assert!(row.try_into_grant().is_err());
    // fulfilled without a session
    let mut row = pending_row();
    row.grant_fulfilled_at = Some(110);
    assert!(row.try_into_grant().is_err());
    // cancelled and fulfilled
    let mut row = with_session(pending_row());
    row.grant_fulfilled_at = Some(110);
    row.grant_cancelled_at = Some(130);
    assert!(row.try_into_grant().is_err());
    // pending with a session
    assert!(with_session(pending_row()).try_into_grant().is_err());
}

#[test]
fn inconsistent_columns_are_refused() {
    let mut row = pending_row();
    row.grant_code_challenge_method = Some("S512".to_string());
    assert_eq!(row.try_into_grant().err(), Some(DatabaseInconsistencyError));
    let mut row = pending_row();
    row.grant_code = None;
    assert!(row.try_into_grant().is_err());
    let mut row = pending_row();
    row.grant_response_mode = "post".to_string();
    assert!(row.try_into_grant().is_err());
    let mut row = pending_row();
    row.grant_scope = " openid".to_string();
    assert!(row.try_into_grant().is_err());
    let mut row = pending_row();
    row.grant_redirect_uri = "not a url".to_string();
    assert!(row.try_into_grant().is_err());
    let mut row = pending_row();
    row.grant_max_age = Some(-1);
    assert!(row.try_into_grant().is_err());
    let mut row = with_session(pending_row());
    row.grant_fulfilled_at = Some(110);
    row.user_username = None;
    assert!(row.try_into_grant().is_err());
    let mut row = pending_row();
    row.user_session_last_authentication_id = Some(1);
    row.user_session_last_authentication_created_at = Some(1);
    assert!(row.try_into_grant().is_err());
}

#[test]
fn scope_parsing() {
    assert_eq!(parse_scope("openid"), Some(vec!["openid".to_string()]));
    assert_eq!(
        parse_scope("openid email urn:matrix:device:AB"),
        Some(vec!["openid".to_string(), "email".to_string(), "urn:matrix:device:AB".to_string()])
    );
    assert_eq!(parse_scope(""), None);
    assert_eq!(parse_scope("a  b"), None);
    assert_eq!(parse_scope("a "), None);
    assert_eq!(parse_scope("a\"b"), None);
    assert_eq!(parse_scope("a\\b"), None);
}

#[test]
fn provider_metadata_endpoints() {
    let m = provider_metadata("https://auth.example.com/").unwrap();
    assert_eq!(m.issuer, "https://auth.example.com/");
    assert_eq!(m.authorization_endpoint.as_deref(), Some("https://auth.example.com/oauth2/authorize"));
    assert_eq!(m.token_endpoint.as_deref(), Some("https://auth.example.com/oauth2/token"));
    assert_eq!(m.jwks_uri.as_deref(), Some("https://auth.example.com/oauth2/keys.json"));
    assert_eq!(m.introspection_endpoint.as_deref(), Some("https://auth.example.com/oauth2/introspect"));
    assert_eq!(m.userinfo_endpoint.as_deref(), Some("https://auth.example.com/oauth2/userinfo"));
    assert_eq!(m.scopes_supported.len(), 5);
    assert_eq!(m.response_types_supported.len(), 7);
    assert!(provider_metadata("not a url").is_none());
}

fn registry() -> Store {
    let mut store = Store::new();
    store
        .register_client(Client {
            client_id: "web".to_string(),
            redirect_uris: vec!["https://app/cb".to_string(), "https://app/other".to_string()],
            token_endpoint_auth_method: AuthMethod::ClientSecretBasic,
            client_secret: Some("shh".to_string()),
        })
        .unwrap();
    store
}

#[test]
fn redirect_uri_resolution() {
    let store = registry();
    assert_eq!(
        store.redirect_uri_from_params(Some("web"), Some("HTTPS://APP:443/cb")),
        Ok("HTTPS://APP:443/cb".to_string())
    );
    assert_eq!(
        store.redirect_uri_from_params(Some("web"), None),
        Err(RedirectUriLookupError::InvalidRedirectUri(InvalidRedirectUriError::MissingRedirectUri))
    );
    assert_eq!(
        store.redirect_uri_from_params(Some("web"), Some("https://evil/cb")),
        Err(RedirectUriLookupError::InvalidRedirectUri(InvalidRedirectUriError::NotRegistered))
    );
    assert_eq!(
        store.redirect_uri_from_params(Some("web"), Some("::")),
        Err(RedirectUriLookupError::InvalidRedirectUri(
            InvalidRedirectUriError::UnparseableRedirectUri
        ))
    );
    assert_eq!(
        store.redirect_uri_from_params(None, None),
        Err(RedirectUriLookupError::MissingClientId)
    );
    assert_eq!(
        store.redirect_uri_from_params(Some("ghost"), None),
        Err(RedirectUriLookupError::ClientNotFound)
    );
}

#[test]
fn browser_error_redirects_to_client() {
    match error_destination(Ok("https://app/cb".to_string())) {
        ErrorDestination::Redirect(u) => assert_eq!(
            u,
            "https://app/cb?error=server_error&error_description=unknown+server+error"
        ),
        ErrorDestination::ErrorPage => panic!("expected a redirect"),
    }
    assert!(matches!(
        error_destination(Err(RedirectUriLookupError::MissingClientId)),
        ErrorDestination::ErrorPage
    ));
}
