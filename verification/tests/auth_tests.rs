use pollcore::auth::generate_token;
use pollcore::auth::validate_token;

fn is_url_safe_base64_char(c: char) -> bool {
    c.is_ascii_uppercase() || c.is_ascii_lowercase() || c.is_ascii_digit() || c == '-' || c == '_'
}

#[test]
fn token_shape() {
    let token = generate_token();
    assert_eq!(token.chars().count(), 43);
    assert!(token.chars().all(is_url_safe_base64_char));
}

#[test]
fn generated_token_validates_against_itself() {
    let token = generate_token();
    assert!(validate_token(&token, &token));
}

#[test]
fn validate_equal_tokens() {
    assert!(validate_token("abc123", "abc123"));
    assert!(validate_token("", ""));
}

#[test]
fn validate_rejects_differing_tokens() {
    assert!(!validate_token("abc123", "abc124"));
    assert!(!validate_token("Abc123", "abc123"));
}

#[test]
fn validate_rejects_length_mismatch() {
    assert!(!validate_token("abc", "abcd"));
    assert!(!validate_token("abc", ""));
    assert!(!validate_token("", "abc"));
}

#[test]
fn validate_handles_multibyte_strings() {
    assert!(validate_token("tøken", "tøken"));
    assert!(!validate_token("tøken", "token"));
}
