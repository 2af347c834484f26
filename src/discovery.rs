use vstd::prelude::*;

use crate::client::{parse_url, parsed_url, AuthMethod};
use crate::grant::opt_string_view;
use crate::model::{CodeChallengeMethod, ResponseMode};

verus! {

/// Name of the serialization of `url::Url::join` of a path onto a base URL,
/// or `None` where the base or the result is not a URL.
pub uninterp spec fn joined_url(base: Seq<char>, path: Seq<char>) -> Option<Seq<char>>;

/// Relies on `url::Url::parse` of the base and `url::Url::join` of the
/// path, serialized; the result depends on the two texts alone.
#[verifier::external_body]
fn join_url(base: &str, path: &str) -> (r: Option<String>)
    ensures
        r is Some <==> joined_url(base@, path@) is Some,
        r matches Some(u) ==> u@ == joined_url(base@, path@)->0,
{
    let base = url::Url::parse(base).ok()?;
    base.join(path).ok().map(String::from)
}

/// Grant types served by the token endpoint.
#[derive(Clone, Copy, Debug, PartialEq, Eq, Structural)]
pub enum GrantType {
    AuthorizationCode,
    RefreshToken,
}

/// Algorithms for `client_secret_jwt` signatures.
#[derive(Clone, Copy, Debug, PartialEq, Eq, Structural)]
pub enum SigningAlgorithm {
    Hs256,
    Hs384,
    Hs512,
}

/// The provider metadata served at `/.well-known/openid-configuration`.
pub struct Metadata {
    pub issuer: String,
    pub authorization_endpoint: Option<String>,
    pub token_endpoint: Option<String>,
    pub jwks_uri: Option<String>,
    pub introspection_endpoint: Option<String>,
    pub userinfo_endpoint: Option<String>,
    pub registration_endpoint: Option<String>,
    pub scopes_supported: Vec<String>,
    pub response_types_supported: Vec<String>,
    pub response_modes_supported: Vec<ResponseMode>,
    pub grant_types_supported: Vec<GrantType>,
    pub token_endpoint_auth_methods_supported: Vec<AuthMethod>,
    pub token_endpoint_auth_signing_alg_values_supported: Vec<SigningAlgorithm>,
    pub code_challenge_methods_supported: Vec<CodeChallengeMethod>,
}

pub open spec fn texts(v: Seq<String>) -> Seq<Seq<char>> {
    v.map_values(|s: String| s@)
}

fn texts_vec(items: &[&str]) -> (r: Vec<String>)
    ensures
        r@.len() == items@.len(),
        forall|i: int| 0 <= i < items@.len() ==> #[trigger] r@[i]@ == items@[i]@,
{
    let mut r: Vec<String> = Vec::new();
    let mut i: usize = 0;
    while i < items.len()
        invariant
            i <= items@.len(),
            r@.len() == i,
            forall|k: int| 0 <= k < i ==> #[trigger] r@[k]@ == items@[k]@,
        decreases items@.len() - i,
    {
        r.push(items[i].to_owned());
        i = i + 1;
    }
    r
}

/// The metadata of the provider whose issuer URL is given: endpoints under
/// the issuer, and what the provider supports. `None` when the issuer is not
/// a URL.
pub fn provider_metadata(issuer: &str) -> (r: Option<Metadata>)
    ensures
        r is Some <==> parsed_url(issuer@) is Some,
        r matches Some(m) ==> {
            &&& m.issuer@ == parsed_url(issuer@)->0
            &&& opt_string_view(m.authorization_endpoint) == joined_url(m.issuer@, "oauth2/authorize"@)
            &&& opt_string_view(m.token_endpoint) == joined_url(m.issuer@, "oauth2/token"@)
            &&& opt_string_view(m.jwks_uri) == joined_url(m.issuer@, "oauth2/keys.json"@)
            &&& opt_string_view(m.introspection_endpoint) == joined_url(m.issuer@, "oauth2/introspect"@)
            &&& opt_string_view(m.userinfo_endpoint) == joined_url(m.issuer@, "oauth2/userinfo"@)
            &&& m.registration_endpoint is None
            &&& texts(m.scopes_supported@) == seq![
                "openid"@,
                "profile"@,
                "email"@,
                "address"@,
                "phone"@,
            ]
            &&& texts(m.response_types_supported@) == seq![
                "code"@,
                "token"@,
                "id_token"@,
                "code token"@,
                "code id_token"@,
                "token id_token"@,
                "code token id_token"@,
            ]
            &&& m.response_modes_supported@ == seq![
                ResponseMode::FormPost,
                ResponseMode::Query,
                ResponseMode::Fragment,
            ]
            &&& m.grant_types_supported@ == seq![
                GrantType::AuthorizationCode,
                GrantType::RefreshToken,
            ]
            &&& m.token_endpoint_auth_methods_supported@ == seq![
                AuthMethod::ClientSecretBasic,
                AuthMethod::ClientSecretPost,
                AuthMethod::ClientSecretJwt,
                AuthMethod::NoAuthentication,
            ]
            &&& m.token_endpoint_auth_signing_alg_values_supported@ == seq![
                SigningAlgorithm::Hs256,
                SigningAlgorithm::Hs384,
                SigningAlgorithm::Hs512,
            ]
            &&& m.code_challenge_methods_supported@ == seq![
                CodeChallengeMethod::Plain,
                CodeChallengeMethod::S256,
            ]
        },
{
    let base = match parse_url(issuer) {
        Some(b) => b,
        None => return None,
    };
    let scopes = texts_vec(&["openid", "profile", "email", "address", "phone"]);
    let response_types = texts_vec(
        &[
            "code",
            "token",
            "id_token",
            "code token",
            "code id_token",
            "token id_token",
            "code token id_token",
        ],
    );
    let m = Metadata {
        authorization_endpoint: join_url(base.as_str(), "oauth2/authorize"),
        token_endpoint: join_url(base.as_str(), "oauth2/token"),
        jwks_uri: join_url(base.as_str(), "oauth2/keys.json"),
        introspection_endpoint: join_url(base.as_str(), "oauth2/introspect"),
        userinfo_endpoint: join_url(base.as_str(), "oauth2/userinfo"),
        issuer: base,
        registration_endpoint: None,
        scopes_supported: scopes,
        response_types_supported: response_types,
        response_modes_supported: vec![
            ResponseMode::FormPost,
            ResponseMode::Query,
            ResponseMode::Fragment,
        ],
        grant_types_supported: vec![GrantType::AuthorizationCode, GrantType::RefreshToken],
        token_endpoint_auth_methods_supported: vec![
            AuthMethod::ClientSecretBasic,
            AuthMethod::ClientSecretPost,
            AuthMethod::ClientSecretJwt,
            AuthMethod::NoAuthentication,
        ],
        token_endpoint_auth_signing_alg_values_supported: vec![
            SigningAlgorithm::Hs256,
            SigningAlgorithm::Hs384,
            SigningAlgorithm::Hs512,
        ],
        code_challenge_methods_supported: vec![CodeChallengeMethod::Plain, CodeChallengeMethod::S256],
    };
    assert(texts(m.scopes_supported@) =~= seq!["openid"@, "profile"@, "email"@, "address"@, "phone"@]);
    assert(texts(m.response_types_supported@) =~= seq![
        "code"@,
        "token"@,
        "id_token"@,
        "code token"@,
        "code id_token"@,
        "token id_token"@,
        "code token id_token"@,
    ]);
    Some(m)
}

} // verus!
