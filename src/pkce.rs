use sha2::Digest;
use vstd::prelude::*;

use crate::encoding::{base64url_of, encode_base64url};
use crate::model::{CodeChallengeMethod, Pkce};
use crate::text::str_eq;

verus! {

/// Name of the SHA-256 digest of the UTF-8 bytes of a text.
pub uninterp spec fn sha256_of(s: Seq<char>) -> Seq<u8>;

/// Relies on `sha2::Sha256::digest`: the 32-byte digest depends on the
/// bytes alone.
#[verifier::external_body]
fn sha256(s: &str) -> (r: Vec<u8>)
    ensures
        r@ == sha256_of(s@),
        r@.len() == 32,
{
    sha2::Sha256::digest(s.as_bytes()).to_vec()
}

/// Whether a code verifier answers a PKCE challenge (RFC 7636).
pub open spec fn pkce_verifies(method: CodeChallengeMethod, challenge: Seq<char>, verifier: Seq<
    char,
>) -> bool {
    match method {
        CodeChallengeMethod::Plain => verifier == challenge,
        CodeChallengeMethod::S256 => base64url_of(sha256_of(verifier)) == challenge,
    }
}

/// The S256 challenge of a verifier: base64url of its SHA-256 digest.
pub fn s256_challenge(verifier: &str) -> (r: String)
    ensures
        r@ == base64url_of(sha256_of(verifier@)),
{
    let digest = sha256(verifier);
    encode_base64url(digest.as_slice())
}

impl Pkce {
    /// Whether the verifier answers this challenge.
    pub fn verify(&self, verifier: &str) -> (r: bool)
        ensures
            r == pkce_verifies(self.challenge_method, self.challenge@, verifier@),
    {
        match self.challenge_method {
            CodeChallengeMethod::Plain => str_eq(verifier, self.challenge.as_str()),
            CodeChallengeMethod::S256 => {
                let computed = s256_challenge(verifier);
                str_eq(computed.as_str(), self.challenge.as_str())
            },
        }
    }
}

} // verus!
