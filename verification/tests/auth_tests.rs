use backend::auth::{auth_middleware, auth_middleware_at, bearer_token, user_of_claims};
use backend::errors::AppError;
use backend::token::{create_jwt, create_jwt_at, Claims};

const SECRET: &str = "a-signing-secret";
const ID: u128 = 0x550e8400e29b41d4a716446655440000;
const NOW: i64 = 1_700_000_000;

fn header() -> String {
    let token = create_jwt_at(ID, "alice@example.com".to_string(), SECRET, 3600, NOW).unwrap();
    format!("Bearer {}", token)
}

#[test]
fn a_bearer_token_names_its_account() {
    let user = auth_middleware_at(Some(&header()), SECRET, NOW + 10).unwrap();
    assert_eq!(user.user_id, ID);
    assert_eq!(user.email, "alice@example.com");
}

#[test]
fn a_missing_header_is_unauthorized() {
    assert_eq!(auth_middleware_at(None, SECRET, NOW).unwrap_err(), AppError::Unauthorized);
}

#[test]
fn a_header_that_is_no_bearer_token_is_unauthorized() {
    let token = create_jwt_at(ID, "alice@example.com".to_string(), SECRET, 3600, NOW).unwrap();
    for h in [token.clone(), format!("bearer {}", token), format!("Basic {}", token), "Bearer".to_string()] {
        assert_eq!(auth_middleware_at(Some(&h), SECRET, NOW).unwrap_err(), AppError::Unauthorized);
    }
}

#[test]
fn an_expired_token_is_unauthorized() {
    assert_eq!(
        auth_middleware_at(Some(&header()), SECRET, NOW + 3601).unwrap_err(),
        AppError::Unauthorized
    );
}

#[test]
fn a_token_of_another_secret_is_unauthorized() {
    assert_eq!(
        auth_middleware_at(Some(&header()), "another", NOW).unwrap_err(),
        AppError::Unauthorized
    );
}

#[test]
fn a_subject_that_is_no_account_id_is_unauthorized() {
    let mut payload = serde_json::Map::new();
    payload.insert("sub".to_string(), serde_json::Value::from("alice"));
    payload.insert("email".to_string(), serde_json::Value::from("alice@example.com"));
    payload.insert("exp".to_string(), serde_json::Value::from(NOW + 3600));
    payload.insert("iat".to_string(), serde_json::Value::from(NOW));
    let signed = jsonwebtoken::encode(
        &jsonwebtoken::Header::default(),
        &payload,
        &jsonwebtoken::EncodingKey::from_secret(SECRET.as_bytes()),
    )
    .unwrap();
    let h = format!("Bearer {}", signed);
    assert_eq!(auth_middleware_at(Some(&h), SECRET, NOW).unwrap_err(), AppError::Unauthorized);
}

#[test]
fn the_subject_is_read_as_a_uuid() {
    let claims = Claims {
        sub: "550E8400-E29B-41D4-A716-446655440000".to_string(),
        email: "alice@example.com".to_string(),
        exp: 10,
        iat: 0,
    };
    let user = user_of_claims(claims).unwrap();
    assert_eq!(user.user_id, ID);
    let claims = Claims { sub: "12".to_string(), email: "e".to_string(), exp: 10, iat: 0 };
    assert_eq!(user_of_claims(claims).unwrap_err(), AppError::Unauthorized);
}

#[test]
fn the_token_is_what_follows_bearer() {
    assert_eq!(bearer_token(Some("Bearer abc.def.ghi")), Some("abc.def.ghi".to_string()));
    assert_eq!(bearer_token(Some("Bearer ")), Some("".to_string()));
    assert_eq!(bearer_token(Some("Token abc")), None);
    assert_eq!(bearer_token(None), None);
}

#[test]
fn a_token_issued_now_authenticates_now() {
    let token = create_jwt(ID, "alice@example.com".to_string(), SECRET, 3600).unwrap();
    let h = format!("Bearer {}", token);
    let user = auth_middleware(Some(&h), SECRET).unwrap();
    assert_eq!(user.user_id, ID);
}
