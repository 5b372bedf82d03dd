use webui_auth::{
    check_token_at, create_token, create_token_at, encode_claims, verify_token, AppError, Claims,
    TokenFailure, EXPIRY_LEEWAY_SECONDS, SECONDS_PER_DAY, TOKEN_VALIDITY_DAYS,
};

#[test]
fn test_create_and_verify_token() {
    let secret = "test-secret-key";
    let user_id = "user123".to_string();
    let email = "test@example.com".to_string();
    let role = "user".to_string();

    let token = create_token(user_id.clone(), email.clone(), role.clone(), secret)
        .expect("Failed to create token");

    let claims = verify_token(&token, secret)
        .expect("Failed to verify token");

    assert_eq!(claims.sub, user_id);
    assert_eq!(claims.email, email);
    assert_eq!(claims.role, role);
}

const NOW: i64 = 1_700_000_000;

#[test]
fn issued_token_round_trips() {
    let token = create_token_at("id-1".to_string(), "a@b.c".to_string(), "admin".to_string(), "k", NOW);
    let c = check_token_at(&token, "k", NOW).unwrap();
    assert_eq!(c.sub, "id-1");
    assert_eq!(c.email, "a@b.c");
    assert_eq!(c.role, "admin");
    assert_eq!(c.iat, NOW);
    assert_eq!(c.exp, NOW + 7 * 86400);
    assert_eq!(TOKEN_VALIDITY_DAYS * SECONDS_PER_DAY, 604800);
}

#[test]
fn token_has_three_parts_and_standard_header() {
    let token = create_token_at("u".to_string(), "e".to_string(), "user".to_string(), "k", NOW);
    let parts: Vec<&str> = token.split('.').collect();
    assert_eq!(parts.len(), 3);
    // base64url of {"typ":"JWT","alg":"HS256"}
    assert_eq!(parts[0], "eyJ0eXAiOiJKV1QiLCJhbGciOiJIUzI1NiJ9");
}

#[test]
fn quotes_and_backslashes_survive() {
    let email = "\"odd\\name\"@example.com".to_string();
    let token = create_token_at("x\"y".to_string(), email.clone(), "user".to_string(), "k", NOW);
    let c = check_token_at(&token, "k", NOW).unwrap();
    assert_eq!(c.email, email);
    assert_eq!(c.sub, "x\"y");
}

#[test]
fn negative_timestamps_round_trip() {
    let token = create_token_at("u".to_string(), "e".to_string(), "user".to_string(), "k", -1_000_000);
    let c = check_token_at(&token, "k", -1_000_000).unwrap();
    assert_eq!(c.iat, -1_000_000);
    assert_eq!(c.exp, -1_000_000 + 604800);
}

#[test]
fn expired_token_fails_with_expiry() {
    let token = create_token_at("u".to_string(), "e".to_string(), "user".to_string(), "k", NOW);
    let exp = NOW + 604800;
    assert!(check_token_at(&token, "k", exp).is_ok());
    assert!(check_token_at(&token, "k", exp + EXPIRY_LEEWAY_SECONDS).is_ok());
    assert_eq!(check_token_at(&token, "k", exp + EXPIRY_LEEWAY_SECONDS + 1).unwrap_err(), TokenFailure::Expired);
    let e = TokenFailure::Expired.to_app_error();
    assert!(matches!(e, AppError::TokenError(_)));
    assert_eq!(e.status_code(), 401);
}

#[test]
fn flipping_any_character_fails() {
    let token = create_token_at("user-7".to_string(), "x@y.z".to_string(), "user".to_string(), "secret", NOW);
    let chars: Vec<char> = token.chars().collect();
    for i in 0..chars.len() {
        let mut changed = chars.clone();
        changed[i] = if chars[i] == 'A' { 'B' } else { 'A' };
        let t: String = changed.into_iter().collect();
        assert!(check_token_at(&t, "secret", NOW).is_err(), "position {}", i);
    }
}

#[test]
fn wrong_secret_is_bad_signature() {
    let token = create_token_at("u".to_string(), "e".to_string(), "user".to_string(), "one", NOW);
    assert_eq!(check_token_at(&token, "two", NOW).unwrap_err(), TokenFailure::BadSignature);
}

#[test]
fn malformed_tokens() {
    for t in ["", "abc", "a.b", "a.b.c.d", "x.y.z"] {
        assert_eq!(check_token_at(t, "k", NOW).unwrap_err(), TokenFailure::Malformed, "{}", t);
    }
    match verify_token("garbage", "k") {
        Err(AppError::TokenError(m)) => assert_eq!(m, "Invalid token"),
        other => panic!("unexpected {:?}", other),
    }
}

#[test]
fn encode_claims_matches_issue() {
    let c = Claims { sub: "s".to_string(), email: "e".to_string(), role: "pending".to_string(), exp: NOW + 604800, iat: NOW };
    let t1 = encode_claims(&c, "k");
    let t2 = create_token_at("s".to_string(), "e".to_string(), "pending".to_string(), "k", NOW);
    assert_eq!(t1, t2);
}

#[test]
fn claims_new_sets_window() {
    let c = Claims::new("u".to_string(), "e".to_string(), "user".to_string(), 3);
    assert_eq!(c.exp - c.iat, 3 * 86400);
    assert!(c.iat > 1_600_000_000);
}

#[test]
fn control_characters_and_unicode_survive() {
    let email = "tab\there\nnew\u{1}line é 😀".to_string();
    let token = create_token_at("id\\/x".to_string(), email.clone(), "user".to_string(), "k", NOW);
    let c = check_token_at(&token, "k", NOW).unwrap();
    assert_eq!(c.email, email);
    assert_eq!(c.sub, "id\\/x");
}
