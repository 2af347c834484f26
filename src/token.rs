use vstd::prelude::*;

use crate::csrf::random_secret;
use crate::encoding::{encode_base64url, is_base64url_char};
use crate::text::{decimal, decimal_text, lemma_decimal_injective, str_eq};

verus! {

/// The sixty-two symbols used to print a token's checksum.
pub const BASE62: &'static str = "0123456789ABCDEFGHIJKLMNOPQRSTUVWXYZabcdefghijklmnopqrstuvwxyz";

/// Number of characters of the printed checksum.
pub const CHECKSUM_LEN: usize = 6;

/// Name of the CRC-32 (ISO-HDLC) checksum of the UTF-8 bytes of a string.
pub uninterp spec fn crc32_of(s: Seq<char>) -> u32;

/// Relies on `crc::Crc::<u32>::checksum` with the `CRC_32_ISO_HDLC`
/// algorithm: the result depends on the bytes alone.
#[verifier::external_body]
fn crc32(s: &str) -> (r: u32)
    ensures
        r == crc32_of(s@),
{
    crc::Crc::<u32>::new(&crc::CRC_32_ISO_HDLC).checksum(s.as_bytes())
}

/// Kind of an opaque bearer token.
#[derive(Clone, Copy, Debug, PartialEq, Eq, Structural)]
pub enum TokenType {
    AccessToken,
    RefreshToken,
}

/// Why a presented string is not a token of this server.
#[derive(Clone, Copy, Debug, PartialEq, Eq, Structural)]
pub enum TokenFormatError {
    /// The string does not have the `{prefix}_{random}_{checksum}` shape.
    InvalidFormat,
    /// The prefix is not one that this server issues.
    UnknownPrefix,
    /// The checksum does not match the rest of the token.
    InvalidChecksum,
}

pub open spec fn prefix_of(kind: TokenType) -> Seq<char> {
    match kind {
        TokenType::AccessToken => "mat_ac"@,
        TokenType::RefreshToken => "mat_rt"@,
    }
}

pub open spec fn base62_char(d: nat) -> char {
    BASE62@[d as int]
}

/// The last `k` base-62 digits of `n`, most significant first.
pub open spec fn base62_text(n: nat, k: nat) -> Seq<char>
    decreases k,
{
    if k == 0 {
        Seq::empty()
    } else {
        base62_text(n / 62, (k - 1) as nat).push(base62_char(n % 62))
    }
}

/// The printed checksum of the prefix followed by the random part.
pub open spec fn checksum_text(prefix: Seq<char>, random: Seq<char>) -> Seq<char> {
    base62_text(crc32_of(prefix + random) as nat, CHECKSUM_LEN as nat)
}

/// The token of the given kind built around the given random part.
pub open spec fn token_text(kind: TokenType, random: Seq<char>) -> Seq<char> {
    prefix_of(kind) + seq!['_'] + random + seq!['_'] + checksum_text(prefix_of(kind), random)
}

/// The random part of a token-shaped string.
pub open spec fn random_part(t: Seq<char>) -> Seq<char> {
    t.subrange(7, t.len() - 7)
}

/// Whether the random part of a token ends with `-` and `id` in decimal,
/// after 43 random symbols.
pub open spec fn carries_id(t: Seq<char>, id: nat) -> bool {
    t.len() >= 58 && t.subrange(50, t.len() - 7) == seq!['-'] + decimal(id)
}

/// Two tokens that carry ids and have the same text carry the same id.
pub proof fn lemma_carried_id_unique(t: Seq<char>, a: nat, b: nat)
    requires
        carries_id(t, a),
        carries_id(t, b),
    ensures
        a == b,
{
    let sa = seq!['-'] + decimal(a);
    let sb = seq!['-'] + decimal(b);
    assert(sa.subrange(1, sa.len() as int) =~= decimal(a));
    assert(sb.subrange(1, sb.len() as int) =~= decimal(b));
    lemma_decimal_injective(a, b);
}

/// Classification of a presented string, without any lookup.
pub open spec fn classify(t: Seq<char>) -> Result<TokenType, TokenFormatError> {
    if t.len() < 14 || t[6] != '_' || t[t.len() - 7] != '_' {
        Err(TokenFormatError::InvalidFormat)
    } else {
        let prefix = t.subrange(0, 6);
        if prefix != prefix_of(TokenType::AccessToken) && prefix != prefix_of(
            TokenType::RefreshToken,
        ) {
            Err(TokenFormatError::UnknownPrefix)
        } else if t.subrange(t.len() - 6, t.len() as int) != checksum_text(
            prefix,
            random_part(t),
        ) {
            Err(TokenFormatError::InvalidChecksum)
        } else if prefix == prefix_of(TokenType::AccessToken) {
            Ok(TokenType::AccessToken)
        } else {
            Ok(TokenType::RefreshToken)
        }
    }
}

pub proof fn lemma_base62_text_len(n: nat, k: nat)
    ensures
        base62_text(n, k).len() == k,
    decreases k,
{
    if k > 0 {
        lemma_base62_text_len(n / 62, (k - 1) as nat);
    }
}

/// A generated token is classified as the kind it was generated for,
/// whatever its random part.
pub proof fn lemma_classify_generated(kind: TokenType, random: Seq<char>)
    ensures
        classify(token_text(kind, random)) == Ok::<TokenType, TokenFormatError>(kind),
{
    reveal_strlit("mat_ac");
    reveal_strlit("mat_rt");
    let p = prefix_of(kind);
    let c = checksum_text(p, random);
    lemma_base62_text_len(crc32_of(p + random) as nat, CHECKSUM_LEN as nat);
    let t = token_text(kind, random);
    let n = t.len();
    assert(n == 14 + random.len());
    assert(t.subrange(0, 6) =~= p);
    assert(t[6] == '_');
    assert(t[n - 7] == '_');
    assert(random_part(t) =~= random);
    assert(t.subrange(n - 6, n as int) =~= c);
    assert(prefix_of(TokenType::AccessToken) != prefix_of(TokenType::RefreshToken)) by {
        assert(prefix_of(TokenType::AccessToken)[5] != prefix_of(TokenType::RefreshToken)[5]);
    }
}

/// The last `k` base-62 digits of `n` as text.
fn base62_encode(n: u32, k: usize) -> (r: String)
    ensures
        r@ == base62_text(n as nat, k as nat),
    decreases k,
{
    if k == 0 {
        String::new()
    } else {
        let mut s = base62_encode(n / 62, k - 1);
        let d = (n % 62) as usize;
        proof {
            reveal_strlit("0123456789ABCDEFGHIJKLMNOPQRSTUVWXYZabcdefghijklmnopqrstuvwxyz");
        }
        let digit = BASE62.substring_char(d, d + 1);
        s.append(digit);
        assert(s@ =~= base62_text(n as nat, k as nat));
        s
    }
}

impl TokenType {
    /// The prefix that marks tokens of this kind.
    pub fn prefix(self) -> (r: &'static str)
        ensures
            r@ == prefix_of(self),
    {
        match self {
            TokenType::AccessToken => "mat_ac",
            TokenType::RefreshToken => "mat_rt",
        }
    }

    /// Builds the token of this kind around a given random part.
    pub fn with_random_part(self, random: &str) -> (r: String)
        ensures
            r@ == token_text(self, random@),
    {
        let prefix = self.prefix();
        let base = String::from_str(prefix).concat(random);
        let crc = crc32(base.as_str());
        let checksum = base62_encode(crc, CHECKSUM_LEN);
        let r = String::from_str(prefix).concat("_").concat(random).concat("_").concat(
            checksum.as_str(),
        );
        proof {
            reveal_strlit("_");
        }
        assert(r@ =~= token_text(self, random@));
        r
    }

    /// Generates a fresh token of this kind: 256 bits of random material,
    /// base64url-encoded, between the prefix and the checksum.
    pub fn generate(self) -> (r: String)
        ensures
            exists|random: Seq<char>|
                r@ == token_text(self, random) && random.len() == 43 && forall|i: int|
                    0 <= i < random.len() ==> is_base64url_char(#[trigger] random[i]),
            classify(r@) == Ok::<TokenType, TokenFormatError>(self),
    {
        let bytes = random_secret();
        let random = encode_base64url(&bytes);
        let r = self.with_random_part(random.as_str());
        proof {
            lemma_classify_generated(self, random@);
        }
        r
    }

    /// Generates the token of this kind stored in row `id`: 256 bits of
    /// random material, then `-` and the id, so that no two rows of a table
    /// share a text.
    pub fn generate_with_id(self, id: u64) -> (r: String)
        ensures
            classify(r@) == Ok::<TokenType, TokenFormatError>(self),
            carries_id(r@, id as nat),
    {
        let bytes = random_secret();
        let random = encode_base64url(&bytes);
        let suffix = String::from_str("-").concat(decimal_text(id).as_str());
        let part = random.concat(suffix.as_str());
        let r = self.with_random_part(part.as_str());
        proof {
            reveal_strlit("-");
            lemma_classify_generated(self, part@);
            lemma_base62_text_len(crc32_of(prefix_of(self) + part@) as nat, CHECKSUM_LEN as nat);
            reveal_strlit("mat_ac");
            reveal_strlit("mat_rt");
            assert(prefix_of(self).len() == 6);
            assert(part@ == random@ + (seq!['-'] + decimal(id as nat)));
            assert(r@.subrange(50, r@.len() - 7) =~= seq!['-'] + decimal(id as nat));
        }
        r
    }

    /// Classifies a presented string as an access or refresh token, or
    /// rejects it, from its prefix and checksum alone.
    pub fn check(token: &str) -> (r: Result<TokenType, TokenFormatError>)
        ensures
            r == classify(token@),
    {
        let n = token.unicode_len();
        if n < 14 || token.get_char(6) != '_' || token.get_char(n - 7) != '_' {
            return Err(TokenFormatError::InvalidFormat);
        }
        let prefix = token.substring_char(0, 6);
        let kind = if str_eq(prefix, TokenType::AccessToken.prefix()) {
            TokenType::AccessToken
        } else if str_eq(prefix, TokenType::RefreshToken.prefix()) {
            TokenType::RefreshToken
        } else {
            return Err(TokenFormatError::UnknownPrefix);
        };
        let random = token.substring_char(7, n - 7);
        let base = String::from_str(prefix).concat(random);
        let crc = crc32(base.as_str());
        let expected = base62_encode(crc, CHECKSUM_LEN);
        let found = token.substring_char(n - 6, n);
        if !str_eq(found, expected.as_str()) {
            return Err(TokenFormatError::InvalidChecksum);
        }
        assert(prefix_of(TokenType::AccessToken) != prefix_of(TokenType::RefreshToken)) by {
            reveal_strlit("mat_ac");
            reveal_strlit("mat_rt");
            assert(prefix_of(TokenType::AccessToken)[5] != prefix_of(TokenType::RefreshToken)[5]);
        }
        Ok(kind)
    }
}

} // verus!
