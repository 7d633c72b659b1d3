use roomauth::errors::AuthError;
use roomauth::token::{validate, KeySet};

const AUD: &str = "my-project";
const ISS_PREFIX: &str = "https://issuer.example/";
const SECRET: &[u8] = b"test-secret-key";
const NOW: u64 = 1_700_000_000;

fn make_token(kid: Option<&str>, payload: &str, secret: &[u8]) -> String {
    let mut header = jsonwebtoken::Header::new(jsonwebtoken::Algorithm::HS256);
    header.kid = kid.map(|s| s.to_string());
    let claims: serde_json::Value = serde_json::from_str(payload).unwrap();
    jsonwebtoken::encode(&header, &claims, &jsonwebtoken::EncodingKey::from_secret(secret))
        .unwrap()
}

fn keyset() -> KeySet {
    let mut ks = KeySet::new();
    ks.add_key("k1".to_string(), SECRET.to_vec());
    ks
}

fn full_payload(aud: &str, iss: &str, exp: u64, iat: u64) -> String {
    format!(
        "{{\"sub\":\"ext-abc123\",\"aud\":\"{}\",\"iss\":\"{}\",\"exp\":{},\"iat\":{},\
         \"email\":\"ada@example.com\",\"name\":\"Ada\",\"picture\":\"https://img.example/a.png\",\
         \"email_verified\":true}}",
        aud, iss, exp, iat
    )
}

fn good_iss() -> String {
    format!("{}{}", ISS_PREFIX, AUD)
}

#[test]
fn valid_token_returns_exact_claims() {
    let token = make_token(
        Some("k1"),
        &full_payload(AUD, &good_iss(), NOW + 3600, NOW - 10),
        SECRET,
    );
    let header = format!("Bearer {}", token);
    let ks = keyset();
    let claims = validate(Some(&header), AUD, ISS_PREFIX, &ks, NOW).unwrap();
    assert_eq!(claims.subject, "ext-abc123");
    assert_eq!(claims.email, Some("ada@example.com".to_string()));
    assert_eq!(claims.display_name, Some("Ada".to_string()));
    assert_eq!(claims.avatar_url, Some("https://img.example/a.png".to_string()));
    assert_eq!(claims.email_verified, Some(true));
    assert_eq!(claims.expires_at, NOW + 3600);
    assert_eq!(claims.issued_at, NOW - 10);
    assert_eq!(claims.audience, AUD);
    assert_eq!(claims.issuer, good_iss());
}

#[test]
fn minimal_token_has_no_profile() {
    let payload = format!(
        "{{\"sub\":\"s1\",\"aud\":\"{}\",\"iss\":\"{}\",\"exp\":{},\"iat\":{}}}",
        AUD,
        good_iss(),
        NOW + 60,
        NOW
    );
    let token = make_token(Some("k1"), &payload, SECRET);
    let header = format!("Bearer {}", token);
    let claims = validate(Some(&header), AUD, ISS_PREFIX, &keyset(), NOW).unwrap();
    assert_eq!(claims.subject, "s1");
    assert_eq!(claims.email, None);
    assert_eq!(claims.display_name, None);
    assert_eq!(claims.avatar_url, None);
    assert_eq!(claims.email_verified, None);
}

#[test]
fn expired_token_rejected_despite_valid_signature() {
    let token = make_token(
        Some("k1"),
        &full_payload(AUD, &good_iss(), NOW - 1, NOW - 3600),
        SECRET,
    );
    let header = format!("Bearer {}", token);
    let r = validate(Some(&header), AUD, ISS_PREFIX, &keyset(), NOW);
    assert_eq!(r.err().unwrap(), AuthError::TokenExpired);
}

#[test]
fn expiry_is_strict() {
    let token = make_token(
        Some("k1"),
        &full_payload(AUD, &good_iss(), NOW, NOW - 10),
        SECRET,
    );
    let header = format!("Bearer {}", token);
    let r = validate(Some(&header), AUD, ISS_PREFIX, &keyset(), NOW);
    assert_eq!(r.err().unwrap(), AuthError::TokenExpired);
}

#[test]
fn wrong_audience_rejected() {
    let token = make_token(
        Some("k1"),
        &full_payload("other-project", &good_iss(), NOW + 3600, NOW),
        SECRET,
    );
    let header = format!("Bearer {}", token);
    let r = validate(Some(&header), AUD, ISS_PREFIX, &keyset(), NOW);
    assert_eq!(r.err().unwrap(), AuthError::AudienceMismatch);
}

#[test]
fn audience_is_checked_before_expiry() {
    let token = make_token(
        Some("k1"),
        &full_payload("other-project", &good_iss(), NOW - 100, NOW - 3600),
        SECRET,
    );
    let header = format!("Bearer {}", token);
    let r = validate(Some(&header), AUD, ISS_PREFIX, &keyset(), NOW);
    assert_eq!(r.err().unwrap(), AuthError::AudienceMismatch);
}

#[test]
fn signature_is_checked_before_expiry() {
    let token = make_token(
        Some("k1"),
        &full_payload(AUD, &good_iss(), NOW - 100, NOW - 3600),
        b"a-different-secret",
    );
    let header = format!("Bearer {}", token);
    let r = validate(Some(&header), AUD, ISS_PREFIX, &keyset(), NOW);
    assert_eq!(r.err().unwrap(), AuthError::SignatureInvalid);
}

#[test]
fn wrong_issuer_rejected() {
    let token = make_token(
        Some("k1"),
        &full_payload(AUD, "https://evil.example/my-project", NOW + 3600, NOW),
        SECRET,
    );
    let header = format!("Bearer {}", token);
    let r = validate(Some(&header), AUD, ISS_PREFIX, &keyset(), NOW);
    assert_eq!(r.err().unwrap(), AuthError::IssuerMismatch);
}

#[test]
fn wrong_secret_rejected() {
    let token = make_token(
        Some("k1"),
        &full_payload(AUD, &good_iss(), NOW + 3600, NOW),
        b"a-different-secret",
    );
    let header = format!("Bearer {}", token);
    let r = validate(Some(&header), AUD, ISS_PREFIX, &keyset(), NOW);
    assert_eq!(r.err().unwrap(), AuthError::SignatureInvalid);
}

#[test]
fn unknown_key_identifier_rejected() {
    let token = make_token(
        Some("k2"),
        &full_payload(AUD, &good_iss(), NOW + 3600, NOW),
        SECRET,
    );
    let header = format!("Bearer {}", token);
    let r = validate(Some(&header), AUD, ISS_PREFIX, &keyset(), NOW);
    assert_eq!(r.err().unwrap(), AuthError::SignatureInvalid);
}

#[test]
fn token_without_key_identifier_rejected() {
    let token = make_token(None, &full_payload(AUD, &good_iss(), NOW + 3600, NOW), SECRET);
    let header = format!("Bearer {}", token);
    let r = validate(Some(&header), AUD, ISS_PREFIX, &keyset(), NOW);
    assert_eq!(r.err().unwrap(), AuthError::MalformedToken);
}

#[test]
fn garbage_token_rejected() {
    let header = "Bearer not.a.jwt";
    let r = validate(Some(header), AUD, ISS_PREFIX, &keyset(), NOW);
    assert_eq!(r.err().unwrap(), AuthError::MalformedToken);
}

#[test]
fn token_missing_subject_rejected() {
    let payload = format!(
        "{{\"aud\":\"{}\",\"iss\":\"{}\",\"exp\":{},\"iat\":{}}}",
        AUD,
        good_iss(),
        NOW + 60,
        NOW
    );
    let token = make_token(Some("k1"), &payload, SECRET);
    let header = format!("Bearer {}", token);
    let r = validate(Some(&header), AUD, ISS_PREFIX, &keyset(), NOW);
    assert_eq!(r.err().unwrap(), AuthError::MalformedToken);
}

#[test]
fn missing_header_rejected() {
    let r = validate(None, AUD, ISS_PREFIX, &keyset(), NOW);
    assert_eq!(r.err().unwrap(), AuthError::MissingOrMalformedHeader);
}

#[test]
fn non_bearer_header_rejected() {
    let r = validate(Some("Basic dXNlcjpwdw=="), AUD, ISS_PREFIX, &keyset(), NOW);
    assert_eq!(r.err().unwrap(), AuthError::MissingOrMalformedHeader);
}

#[test]
fn token_issued_too_far_in_future_rejected() {
    let token = make_token(
        Some("k1"),
        &full_payload(AUD, &good_iss(), NOW + 3600, NOW + 61),
        SECRET,
    );
    let header = format!("Bearer {}", token);
    let r = validate(Some(&header), AUD, ISS_PREFIX, &keyset(), NOW);
    assert_eq!(r.err().unwrap(), AuthError::TokenNotYetValid);
}

#[test]
fn token_within_clock_skew_accepted() {
    let token = make_token(
        Some("k1"),
        &full_payload(AUD, &good_iss(), NOW + 3600, NOW + 60),
        SECRET,
    );
    let header = format!("Bearer {}", token);
    assert!(validate(Some(&header), AUD, ISS_PREFIX, &keyset(), NOW).is_ok());
}

#[test]
fn authenticate_wraps_verified_claims() {
    let token = make_token(
        Some("k1"),
        &full_payload(AUD, &good_iss(), NOW + 3600, NOW),
        SECRET,
    );
    let header = format!("Bearer {}", token);
    let user = roomauth::token::authenticate(Some(&header), AUD, ISS_PREFIX, &keyset(), NOW)
        .ok()
        .unwrap();
    let roomauth::models::AuthUser(claims) = user;
    assert_eq!(claims.subject, "ext-abc123");
    let denied = roomauth::token::authenticate(None, AUD, ISS_PREFIX, &keyset(), NOW);
    assert!(denied.is_err());
}

#[test]
fn auth_errors_surface_one_generic_message() {
    let variants = [
        AuthError::MissingOrMalformedHeader,
        AuthError::MalformedToken,
        AuthError::SignatureInvalid,
        AuthError::AudienceMismatch,
        AuthError::IssuerMismatch,
        AuthError::TokenExpired,
        AuthError::TokenNotYetValid,
    ];
    for v in variants.iter() {
        assert_eq!(v.public_message(), "unauthorized");
        assert_eq!(v.http_status(), 401);
    }
}
