use mas_authz::text::decimal_text;
use mas_authz::encoding::bytes_eq;
use mas_authz::pkce::s256_challenge;
use mas_authz::token::{TokenFormatError, TokenType};

#[test]
fn generated_tokens_classify_as_their_kind() {
    for _ in 0..20 {
        let access = TokenType::AccessToken.generate();
        assert!(access.starts_with("mat_ac_"));
        assert_eq!(TokenType::check(&access), Ok(TokenType::AccessToken));
        let refresh = TokenType::RefreshToken.generate();
        assert!(refresh.starts_with("mat_rt_"));
        assert_eq!(TokenType::check(&refresh), Ok(TokenType::RefreshToken));
    }
}

#[test]
fn generated_tokens_carry_256_bits() {
    let t = TokenType::AccessToken.generate();
    // prefix, separator, 43 base64url characters, separator, 6 checksum characters
    assert_eq!(t.len(), 6 + 1 + 43 + 1 + 6);
    assert_ne!(t, TokenType::AccessToken.generate());
}

#[test]
fn token_with_fixed_random_part() {
    let t = TokenType::RefreshToken.with_random_part("abc");
    assert_eq!(&t[..11], "mat_rt_abc_");
    assert_eq!(t.len(), 17);
    assert_eq!(TokenType::check(&t), Ok(TokenType::RefreshToken));
    // the checksum covers prefix and random part: another random part changes it
    let u = TokenType::RefreshToken.with_random_part("abd");
    assert_ne!(&t[11..], &u[11..]);
}

#[test]
fn checksum_is_crc32_in_base62() {
    // the printed checksum is the CRC-32/ISO-HDLC of "mat_acabc" in six
    // base-62 digits
    let t = TokenType::AccessToken.with_random_part("abc");
    let crc = crc32_reference(b"mat_acabc");
    assert_eq!(&t[11..], base62(crc).as_str());
}

fn crc32_reference(bytes: &[u8]) -> u32 {
    let mut crc: u32 = 0xffff_ffff;
    for &b in bytes {
        crc ^= b as u32;
        for _ in 0..8 {
            crc = if crc & 1 != 0 { (crc >> 1) ^ 0xedb8_8320 } else { crc >> 1 };
        }
    }
    !crc
}

fn base62(mut n: u32) -> String {
    let alphabet = b"0123456789ABCDEFGHIJKLMNOPQRSTUVWXYZabcdefghijklmnopqrstuvwxyz";
    let mut out = vec![b'0'; 6];
    for i in (0..6).rev() {
        out[i] = alphabet[(n % 62) as usize];
        n /= 62;
    }
    String::from_utf8(out).unwrap()
}

#[test]
fn malformed_tokens_are_rejected() {
    assert_eq!(TokenType::check(""), Err(TokenFormatError::InvalidFormat));
    assert_eq!(TokenType::check("mat_ac_x"), Err(TokenFormatError::InvalidFormat));
    assert_eq!(TokenType::check("mat_acXabcdef_123456"), Err(TokenFormatError::InvalidFormat));
    assert_eq!(TokenType::check("mat_zz_abcdef_123456"), Err(TokenFormatError::UnknownPrefix));
    assert_eq!(TokenType::check("mat_ac_abcdef_123456"), Err(TokenFormatError::InvalidChecksum));
}

#[test]
fn tampered_token_fails_checksum() {
    let t = TokenType::AccessToken.with_random_part("hello");
    let tampered = t.replacen("hello", "hellp", 1);
    assert_eq!(TokenType::check(&tampered), Err(TokenFormatError::InvalidChecksum));
    let relabelled = t.replacen("mat_ac", "mat_rt", 1);
    assert_eq!(TokenType::check(&relabelled), Err(TokenFormatError::InvalidChecksum));
}

#[test]
fn s256_challenge_of_rfc7636_verifier() {
    assert_eq!(
        s256_challenge("dBjftJeZ4CVP-mB92K27uhbUJU1p1r_wW1gFWFOEjXk"),
        "E9Melhoa2OwvFrEMTJguCHaoeK1t8URWbuGJSstw-cM"
    );
}

#[test]
fn byte_comparison() {
    assert!(bytes_eq(b"abc", b"abc"));
    assert!(!bytes_eq(b"abc", b"abd"));
    assert!(!bytes_eq(b"abc", b"ab"));
    assert!(bytes_eq(b"", b""));
}

#[test]
fn decimal_printing() {
    assert_eq!(decimal_text(0), "0");
    assert_eq!(decimal_text(7), "7");
    assert_eq!(decimal_text(300), "300");
    assert_eq!(decimal_text(u64::MAX), "18446744073709551615");
}
