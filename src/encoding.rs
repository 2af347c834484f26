use vstd::prelude::*;

verus! {

/// Name of the unpadded URL-safe base64 text of a byte string.
pub uninterp spec fn base64url_of(b: Seq<u8>) -> Seq<char>;

/// A symbol of the URL-safe base64 alphabet.
pub open spec fn is_base64url_char(c: char) -> bool {
    ('A' <= c && c <= 'Z') || ('a' <= c && c <= 'z') || ('0' <= c && c <= '9') || c == '-' || c
        == '_'
}

/// The length of the unpadded encoding of `n` bytes: `8n / 6`, rounded up.
pub open spec fn base64url_len(n: nat) -> nat {
    (4 * n + 2) / 3
}

/// Whether some byte string encodes to the given text.
pub open spec fn is_base64url(s: Seq<char>) -> bool {
    exists|b: Seq<u8>| #[trigger] base64url_of(b) == s
}

#[verifier::external_type_specification]
#[verifier::external_body]
pub struct ExDecodeError(data_encoding::DecodeError);

/// Relies on `data_encoding::BASE64URL_NOPAD.encode`: the text depends on the
/// bytes alone, and the encoding is injective (decoding it gives back the
/// bytes). It has `div_ceil(8n, 6)` symbols of the URL-safe alphabet and no
/// padding; `encode_len` panics above `usize::MAX / 512` bytes.
#[verifier::external_body]
pub(crate) fn encode_base64url(b: &[u8]) -> (r: String)
    requires
        b@.len() <= usize::MAX / 512,
    ensures
        r@ == base64url_of(b@),
        r@.len() == base64url_len(b@.len()),
        forall|i: int| 0 <= i < r@.len() ==> is_base64url_char(#[trigger] r@[i]),
        forall|c: Seq<u8>| #[trigger] base64url_of(c) == r@ ==> c == b@,
{
    data_encoding::BASE64URL_NOPAD.encode(b)
}

/// Relies on `data_encoding::BASE64URL_NOPAD.decode`, a canonical encoding:
/// decoding an encoded text gives back its bytes, and any text that decodes
/// is the encoding of what it decodes to.
#[verifier::external_body]
pub(crate) fn decode_base64url(s: &str) -> (r: Result<Vec<u8>, data_encoding::DecodeError>)
    ensures
        r is Ok ==> base64url_of(r->Ok_0@) == s@,
        forall|b: Seq<u8>| #[trigger] base64url_of(b) == s@ ==> (r is Ok && r->Ok_0@ == b),
{
    data_encoding::BASE64URL_NOPAD.decode(s.as_bytes())
}

/// Byte-by-byte comparison of two byte strings.
pub fn bytes_eq(a: &[u8], b: &[u8]) -> (r: bool)
    ensures
        r == (a@ == b@),
{
    let n = a.len();
    if n != b.len() {
        return false;
    }
    let mut i: usize = 0;
    while i < n
        invariant
            n == a@.len(),
            n == b@.len(),
            i <= n,
            forall|j: int| 0 <= j < i ==> a@[j] == b@[j],
        decreases n - i,
    {
        if a[i] != b[i] {
            return false;
        }
        i = i + 1;
    }
    assert(a@ =~= b@);
    true
}

} // verus!
