use backend::errors::{AppError, TokenFailure};
use backend::token::{
    create_jwt, create_jwt_at, token_or_error, validate_decoded, verify_jwt, verify_jwt_at, Claims,
    Decoded, RawClaims,
};
use jsonwebtoken::{decode, Algorithm, DecodingKey, Validation};

const SECRET: &str = "a-signing-secret";
const ID: u128 = 0x550e8400e29b41d4a716446655440000;
const ISSUED_AT: i64 = 1_700_000_000;
const TTL: i64 = 86_400;

fn token() -> String {
    create_jwt_at(ID, "alice@example.com".to_string(), SECRET, TTL, ISSUED_AT).unwrap()
}

fn with_last_signature_char_changed(token: &str) -> String {
    let mut altered: Vec<char> = token.chars().collect();
    let last = altered.len() - 1;
    altered[last] = if altered[last] == 'A' { 'B' } else { 'A' };
    altered.into_iter().collect()
}

#[test]
fn claims_expire_one_lifetime_after_they_were_issued() {
    let claims = Claims::new(ID, "alice@example.com".to_string(), ISSUED_AT, TTL);
    assert_eq!(claims.sub, "550e8400-e29b-41d4-a716-446655440000");
    assert_eq!(claims.email, "alice@example.com");
    assert_eq!(claims.iat, 1_700_000_000);
    assert_eq!(claims.exp, 1_700_086_400);
}

#[test]
fn a_token_carries_its_claims() {
    let claims = verify_jwt_at(&token(), SECRET, ISSUED_AT).unwrap();
    assert_eq!(claims.sub, "550e8400-e29b-41d4-a716-446655440000");
    assert_eq!(claims.email, "alice@example.com");
    assert_eq!(claims.iat, ISSUED_AT);
    assert_eq!(claims.exp, ISSUED_AT + TTL);
}

#[test]
fn a_token_is_valid_one_second_before_its_expiry() {
    assert!(verify_jwt_at(&token(), SECRET, ISSUED_AT + TTL - 1).is_ok());
}

#[test]
fn a_token_is_valid_at_its_expiry() {
    assert!(verify_jwt_at(&token(), SECRET, ISSUED_AT + TTL).is_ok());
}

#[test]
fn a_token_is_expired_one_second_after_its_expiry() {
    assert_eq!(
        verify_jwt_at(&token(), SECRET, ISSUED_AT + TTL + 1).unwrap_err(),
        TokenFailure::Expired
    );
}

#[test]
fn an_altered_signature_is_a_bad_signature() {
    let altered = with_last_signature_char_changed(&token());
    assert_ne!(altered, token());
    assert_eq!(verify_jwt_at(&altered, SECRET, ISSUED_AT).unwrap_err(), TokenFailure::BadSignature);
}

#[test]
fn an_altered_signature_is_a_bad_signature_even_after_expiry() {
    let altered = with_last_signature_char_changed(&token());
    assert_eq!(
        verify_jwt_at(&altered, SECRET, ISSUED_AT + TTL + 1).unwrap_err(),
        TokenFailure::BadSignature
    );
}

#[test]
fn every_single_altered_signature_char_is_a_bad_signature() {
    let issued = token();
    let signature_start = issued.rfind('.').unwrap() + 1;
    for position in signature_start..issued.len() {
        let mut altered: Vec<char> = issued.chars().collect();
        altered[position] = if altered[position] == 'x' { 'y' } else { 'x' };
        let altered: String = altered.into_iter().collect();
        assert_eq!(
            verify_jwt_at(&altered, SECRET, ISSUED_AT).unwrap_err(),
            TokenFailure::BadSignature,
            "position {}",
            position
        );
    }
}

#[test]
fn another_secret_is_a_bad_signature() {
    assert_eq!(
        verify_jwt_at(&token(), "another-secret", ISSUED_AT).unwrap_err(),
        TokenFailure::BadSignature
    );
}

#[test]
fn an_altered_payload_is_a_bad_signature() {
    let issued = token();
    let first_dot = issued.find('.').unwrap();
    let mut altered: Vec<char> = issued.chars().collect();
    altered[first_dot + 3] = if altered[first_dot + 3] == 'A' { 'B' } else { 'A' };
    let altered: String = altered.into_iter().collect();
    assert_eq!(verify_jwt_at(&altered, SECRET, ISSUED_AT).unwrap_err(), TokenFailure::BadSignature);
}

#[test]
fn text_that_is_no_token_is_malformed() {
    for text in ["", "abc", "a.b", "a.b.c.d", "not a token at all", "..", "a.jwt.token"] {
        assert_eq!(
            verify_jwt_at(text, SECRET, ISSUED_AT).unwrap_err(),
            TokenFailure::Malformed,
            "{:?}",
            text
        );
    }
}

#[test]
fn a_signed_token_without_the_claims_is_malformed() {
    let mut payload = serde_json::Map::new();
    payload.insert("sub".to_string(), serde_json::Value::from("550e8400-e29b-41d4-a716-446655440000"));
    payload.insert("exp".to_string(), serde_json::Value::from(ISSUED_AT + TTL));
    let signed = jsonwebtoken::encode(
        &jsonwebtoken::Header::default(),
        &payload,
        &jsonwebtoken::EncodingKey::from_secret(SECRET.as_bytes()),
    )
    .unwrap();
    assert_eq!(verify_jwt_at(&signed, SECRET, ISSUED_AT).unwrap_err(), TokenFailure::Malformed);
}

#[test]
fn a_token_is_a_jwt_signed_with_hs256() {
    let mut rules = Validation::new(Algorithm::HS256);
    rules.validate_exp = false;
    let data = decode::<serde_json::Value>(&token(), &DecodingKey::from_secret(SECRET.as_bytes()), &rules)
        .unwrap();
    assert_eq!(data.header.alg, Algorithm::HS256);
    assert_eq!(data.claims["sub"], "550e8400-e29b-41d4-a716-446655440000");
    assert_eq!(data.claims["email"], "alice@example.com");
    assert_eq!(data.claims["iat"], ISSUED_AT);
    assert_eq!(data.claims["exp"], ISSUED_AT + TTL);
    assert_eq!(token().matches('.').count(), 2);
}

#[test]
fn issuing_is_repeatable() {
    assert_eq!(token(), token());
    let other = create_jwt_at(ID + 1, "alice@example.com".to_string(), SECRET, TTL, ISSUED_AT).unwrap();
    assert_ne!(other, token());
}

#[test]
fn validating_is_repeatable() {
    let t = token();
    let first = verify_jwt_at(&t, SECRET, ISSUED_AT + 5).unwrap();
    let second = verify_jwt_at(&t, SECRET, ISSUED_AT + 5).unwrap();
    assert_eq!(first.sub, second.sub);
    assert_eq!(first.exp, second.exp);
}

#[test]
fn an_expiry_beyond_the_range_of_time_is_an_internal_error() {
    let r = create_jwt_at(ID, "alice@example.com".to_string(), SECRET, i64::MAX, 1);
    assert_eq!(r, Err(AppError::InternalServerError));
    let r = create_jwt_at(ID, "alice@example.com".to_string(), SECRET, i64::MIN, -1);
    assert_eq!(r, Err(AppError::InternalServerError));
}

#[test]
fn a_token_issued_before_1970_is_read_back() {
    let t = create_jwt_at(ID, "old@example.com".to_string(), SECRET, 60, -1000).unwrap();
    let claims = verify_jwt_at(&t, SECRET, -950).unwrap();
    assert_eq!(claims.iat, -1000);
    assert_eq!(claims.exp, -940);
    assert_eq!(verify_jwt_at(&t, SECRET, -939).unwrap_err(), TokenFailure::Expired);
}

#[test]
fn a_token_issued_now_is_valid_now() {
    let t = create_jwt(ID, "alice@example.com".to_string(), SECRET, TTL).unwrap();
    let claims = verify_jwt(&t, SECRET).unwrap();
    assert_eq!(claims.sub, "550e8400-e29b-41d4-a716-446655440000");
    assert_eq!(claims.exp, claims.iat + TTL);
}

#[test]
fn a_token_with_no_lifetime_left_is_expired_now() {
    let t = create_jwt(ID, "alice@example.com".to_string(), SECRET, -3600).unwrap();
    assert_eq!(verify_jwt(&t, SECRET).unwrap_err(), TokenFailure::Expired);
}

#[test]
fn decisions_on_what_the_codec_gave() {
    let raw = RawClaims {
        sub: Some("s".to_string()),
        email: Some("e".to_string()),
        exp: Some(100),
        iat: Some(40),
    };
    let accepted = validate_decoded(Decoded::Payload(raw.clone()), 100).unwrap();
    assert_eq!((accepted.sub.as_str(), accepted.email.as_str(), accepted.exp, accepted.iat), ("s", "e", 100, 40));
    assert_eq!(
        validate_decoded(Decoded::Payload(raw.clone()), 101).unwrap_err(),
        TokenFailure::Expired
    );
    assert_eq!(
        validate_decoded(Decoded::SignatureMismatch, 0).unwrap_err(),
        TokenFailure::BadSignature
    );
    assert_eq!(validate_decoded(Decoded::Unreadable, 0).unwrap_err(), TokenFailure::Malformed);
    for missing in 0..4 {
        let mut partial = raw.clone();
        match missing {
            0 => partial.sub = None,
            1 => partial.email = None,
            2 => partial.exp = None,
            _ => partial.iat = None,
        }
        assert_eq!(
            validate_decoded(Decoded::Payload(partial), 0).unwrap_err(),
            TokenFailure::Malformed
        );
    }
}

#[test]
fn a_codec_failure_is_an_internal_error() {
    assert_eq!(token_or_error(Some("t".to_string())), Ok("t".to_string()));
    assert_eq!(token_or_error(None), Err(AppError::InternalServerError));
}
