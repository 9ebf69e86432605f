use auth_service::token::encode_raw_token;
use auth_service::token::{generate_raw_token, hash_token, random_token, to_hex_lower};

#[test]
fn raw_token_has_expected_length() {
    // 32 bytes → 43 base64url chars (no padding)
    let token = generate_raw_token().unwrap();
    assert_eq!(token.len(), 43, "unexpected token length: {}", token.len());
}

#[test]
fn raw_tokens_are_unique() {
    let a = generate_raw_token().unwrap();
    let b = generate_raw_token().unwrap();
    assert_ne!(a, b);
}

#[test]
fn hash_is_deterministic() {
    let raw = "some-raw-token";
    assert_eq!(hash_token(raw), hash_token(raw));
}

#[test]
fn different_tokens_produce_different_hashes() {
    assert_ne!(hash_token("token-a"), hash_token("token-b"));
}

#[test]
fn hash_output_is_hex() {
    let h = hash_token("test");
    assert!(h.chars().all(|c| c.is_ascii_hexdigit()));
    assert_eq!(h.len(), 64); // SHA-256 → 32 bytes → 64 hex chars
}

#[test]
fn hash_of_known_input_matches_sha256() {
    assert_eq!(
        hash_token("test"),
        "9f86d081884c7d659a2feaa0c55ad015a3bf4f1b2b0b822cd15d6c15b0f00a08"
    );
    assert_eq!(
        hash_token(""),
        "e3b0c44298fc1c149afbf4c8996fb92427ae41e4649b934ca495991b7852b855"
    );
}

#[test]
fn raw_token_uses_url_safe_alphabet() {
    for _ in 0..20 {
        let t = generate_raw_token().unwrap();
        assert!(t
            .chars()
            .all(|c| c.is_ascii_alphanumeric() || c == '-' || c == '_'));
        assert!(!t.contains('='));
    }
}

#[test]
fn random_token_is_a_raw_token() {
    let t = random_token().unwrap();
    assert_eq!(t.len(), 43);
    assert_ne!(t, random_token().unwrap());
}

#[test]
fn hex_encoding_is_lowercase_two_digits_per_byte() {
    assert_eq!(to_hex_lower(&[0x00, 0x0f, 0xa5, 0xff]), "000fa5ff");
    assert_eq!(to_hex_lower(&[]), "");
}

#[test]
fn raw_token_encodes_the_drawn_bytes() {
    assert_eq!(encode_raw_token(&[0u8; 32]), "A".repeat(43));
    let mut b = [0u8; 32];
    b[0] = 0xfb;
    b[31] = 0xff;
    let t = encode_raw_token(&b);
    assert!(t.starts_with("-w"));
    assert!(t.ends_with("AP8"));
}
