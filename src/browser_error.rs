use vstd::prelude::*;

use crate::client::{opt_view, resolved_redirect_uri, InvalidRedirectUriError};
use crate::store::Store;

verus! {

/// Name of the serialization of a URL after `url::Url::query_pairs_mut`
/// appended one form-encoded `name=value` pair to its query, or `None` where
/// the text is not a URL.
pub uninterp spec fn with_query_pair(url: Seq<char>, name: Seq<char>, value: Seq<char>) -> Option<
    Seq<char>,
>;

/// Relies on `url::Url::query_pairs_mut().append_pair` on the parsed URL:
/// the result depends on the three texts alone.
#[verifier::external_body]
pub(crate) fn append_query_pair(url: &str, name: &str, value: &str) -> (r: Option<String>)
    ensures
        r is Some <==> with_query_pair(url@, name@, value@) is Some,
        r matches Some(u) ==> u@ == with_query_pair(url@, name@, value@)->0,
{
    let mut u = url::Url::parse(url).ok()?;
    u.query_pairs_mut().append_pair(name, value);
    Some(String::from(u))
}

/// Why no redirect URI could be settled from a request's query.
#[derive(Clone, Copy, Debug, PartialEq, Eq, Structural)]
pub enum RedirectUriLookupError {
    MissingClientId,
    ClientNotFound,
    InvalidRedirectUri(InvalidRedirectUriError),
}

/// The client's redirect URI carrying a generic server error.
pub open spec fn server_error_redirect(uri: Seq<char>) -> Option<Seq<char>> {
    match with_query_pair(uri, "error"@, "server_error"@) {
        Some(u) => with_query_pair(u, "error_description"@, "unknown server error"@),
        None => None,
    }
}

/// Where a failed browser request ends: back at the client with an error
/// when the request named a valid redirect URI, else on an error page.
pub enum ErrorDestination {
    Redirect(String),
    ErrorPage,
}

impl Store {
    /// Settles the redirect URI named by a request's `client_id` and
    /// `redirect_uri` query parameters.
    pub fn redirect_uri_from_params(&self, client_id: Option<&str>, redirect_uri: Option<&str>) -> (r:
        Result<String, RedirectUriLookupError>)
        requires
            self.wf(),
        ensures
            client_id is None ==> r == Err::<String, RedirectUriLookupError>(
                RedirectUriLookupError::MissingClientId,
            ),
            client_id matches Some(cid) ==> {
                if !(exists|i: int|
                    0 <= i < self.clients@.len() && (#[trigger] self.clients@[i]).client_id@
                        == cid@) {
                    r == Err::<String, RedirectUriLookupError>(
                        RedirectUriLookupError::ClientNotFound,
                    )
                } else {
                    let c = choose|i: int|
                        0 <= i < self.clients@.len() && (#[trigger] self.clients@[i]).client_id@
                            == cid@;
                    match resolved_redirect_uri(self.clients@[c].redirect_uris@, opt_view(redirect_uri)) {
                        Ok(u) => r matches Ok(s) && s@ == u,
                        Err(e) => r == Err::<String, RedirectUriLookupError>(
                            RedirectUriLookupError::InvalidRedirectUri(e),
                        ),
                    }
                }
            },
    {
        let cid = match client_id {
            Some(c) => c,
            None => return Err(RedirectUriLookupError::MissingClientId),
        };
        let c = match self.lookup_client(cid) {
            Some(c) => c,
            None => return Err(RedirectUriLookupError::ClientNotFound),
        };
        proof {
            let k = choose|i: int|
                0 <= i < self.clients@.len() && (#[trigger] self.clients@[i]).client_id@ == cid@;
            assert(k == c);
        }
        match self.clients[c].resolve_redirect_uri(redirect_uri) {
            Ok(u) => Ok(u),
            Err(e) => Err(RedirectUriLookupError::InvalidRedirectUri(e)),
        }
    }
}

/// Where a browser request that failed is sent, given the redirect URI that
/// its query resolved to (if it did).
pub fn error_destination(redirect_uri: Result<String, RedirectUriLookupError>) -> (r:
    ErrorDestination)
    ensures
        redirect_uri is Ok && server_error_redirect(redirect_uri->Ok_0@) is Some ==> (r matches ErrorDestination::Redirect(t) && t@ == server_error_redirect(redirect_uri->Ok_0@)->0),
        !(redirect_uri is Ok && server_error_redirect(redirect_uri->Ok_0@) is Some) ==> r is ErrorPage,
{
    match redirect_uri {
        Ok(u) => match append_query_pair(u.as_str(), "error", "server_error") {
            Some(with_error) => match append_query_pair(
                with_error.as_str(),
                "error_description",
                "unknown server error",
            ) {
                Some(t) => ErrorDestination::Redirect(t),
                None => ErrorDestination::ErrorPage,
            },
            None => ErrorDestination::ErrorPage,
        },
        Err(_) => ErrorDestination::ErrorPage,
    }
}

} // verus!
