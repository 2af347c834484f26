use vstd::prelude::*;

verus! {

/// Name of the serialization of the URL that `url::Url::parse` reads from a
/// text, or `None` where it rejects the text.
pub uninterp spec fn parsed_url(s: Seq<char>) -> Option<Seq<char>>;

/// Relies on `url::Url::parse` followed by its serialization: the scheme
/// and host lowercased, default ports dropped, the path kept. The result
/// depends on the text alone.
#[verifier::external_body]
pub(crate) fn parse_url(s: &str) -> (r: Option<String>)
    ensures
        r is Some <==> parsed_url(s@) is Some,
        r matches Some(u) ==> u@ == parsed_url(s@)->0,
{
    url::Url::parse(s).ok().map(String::from)
}

/// How a client authenticates at the token endpoint.
#[derive(Clone, Copy, Debug, PartialEq, Eq, Structural)]
pub enum AuthMethod {
    /// `none`: a public client, without credentials.
    NoAuthentication,
    ClientSecretBasic,
    ClientSecretPost,
    ClientSecretJwt,
    PrivateKeyJwt,
}

/// A registered OAuth client.
#[derive(Clone, Debug)]
pub struct Client {
    pub client_id: String,
    pub redirect_uris: Vec<String>,
    pub token_endpoint_auth_method: AuthMethod,
    pub client_secret: Option<String>,
}

/// Why a redirect URI could not be settled for a request.
#[derive(Clone, Copy, Debug, PartialEq, Eq, Structural)]
pub enum InvalidRedirectUriError {
    /// None was given and the client does not have exactly one.
    MissingRedirectUri,
    /// The given one is not a URL.
    UnparseableRedirectUri,
    /// The given one matches none of the client's.
    NotRegistered,
}

/// Whether some registered URI normalizes to `n`.
pub open spec fn registers(uris: Seq<String>, n: Seq<char>) -> bool {
    exists|i: int| 0 <= i < uris.len() && parsed_url(#[trigger] uris[i]@) == Some(n)
}

/// The redirect URI that a request resolves to.
pub open spec fn resolved_redirect_uri(uris: Seq<String>, requested: Option<Seq<char>>) -> Result<
    Seq<char>,
    InvalidRedirectUriError,
> {
    match requested {
        None => if uris.len() == 1 {
            Ok(uris[0]@)
        } else {
            Err(InvalidRedirectUriError::MissingRedirectUri)
        },
        Some(r) => match parsed_url(r) {
            None => Err(InvalidRedirectUriError::UnparseableRedirectUri),
            Some(n) => if registers(uris, n) {
                Ok(r)
            } else {
                Err(InvalidRedirectUriError::NotRegistered)
            },
        },
    }
}

pub open spec fn opt_view(o: Option<&str>) -> Option<Seq<char>> {
    match o {
        Some(s) => Some(s@),
        None => None,
    }
}

pub open spec fn result_view<E>(r: Result<String, E>) -> Result<Seq<char>, E> {
    match r {
        Ok(s) => Ok(s@),
        Err(e) => Err(e),
    }
}

impl Client {
    /// The redirect URI to use for a request: the only registered one when
    /// none is given, else the given text itself once it matches a
    /// registered one after normalization (the code exchange then compares
    /// it byte for byte).
    pub fn resolve_redirect_uri(&self, requested: Option<&str>) -> (r: Result<
        String,
        InvalidRedirectUriError,
    >)
        ensures
            result_view(r) == resolved_redirect_uri(self.redirect_uris@, opt_view(requested)),
    {
        match requested {
            None => {
                if self.redirect_uris.len() == 1 {
                    Ok(self.redirect_uris[0].clone())
                } else {
                    Err(InvalidRedirectUriError::MissingRedirectUri)
                }
            },
            Some(r) => {
                let n = match parse_url(r) {
                    None => return Err(InvalidRedirectUriError::UnparseableRedirectUri),
                    Some(n) => n,
                };
                let mut i: usize = 0;
                while i < self.redirect_uris.len()
                    invariant
                        i <= self.redirect_uris@.len(),
                        requested == Some(r),
                        parsed_url(r@) == Some(n@),
                        forall|j: int|
                            0 <= j < i ==> parsed_url(#[trigger] self.redirect_uris@[j]@) != Some(
                                n@,
                            ),
                    decreases self.redirect_uris@.len() - i,
                {
                    match parse_url(self.redirect_uris[i].as_str()) {
                        Some(u) => {
                            if u == n {
                                assert(parsed_url(self.redirect_uris@[i as int]@) == Some(n@));
                                return Ok(r.to_owned());
                            }
                        },
                        None => {},
                    }
                    i = i + 1;
                }
                Err(InvalidRedirectUriError::NotRegistered)
            },
        }
    }
}

} // verus!
