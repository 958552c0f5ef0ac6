use inventario_api::middleware::token::{
    classify_failure, get_token_data, AuthError, Claims, DecodeFailure,
};
use jsonwebtoken::errors::Error;
use jsonwebtoken::{decode, encode, DecodingKey, EncodingKey, Header, Validation};
use serde_json::Value;

const SECRET: &str = "a-shared-secret";

fn far_future() -> u64 {
    jsonwebtoken::get_current_timestamp() + 3600
}

fn long_ago() -> u64 {
    jsonwebtoken::get_current_timestamp() - 3600
}

fn sign(rol: &str, exp: u64, secret: &str) -> String {
    let mut claims = serde_json::Map::new();
    claims.insert("sub".to_string(), Value::from("42"));
    claims.insert("correo".to_string(), Value::from("ana@example.com"));
    claims.insert("rol".to_string(), Value::from(rol));
    claims.insert("exp".to_string(), Value::from(exp));
    encode(&Header::default(), &Value::Object(claims), &EncodingKey::from_secret(secret.as_bytes()))
        .unwrap()
}

fn read(token: &str) -> Result<Claims, Error> {
    let key = DecodingKey::from_secret(SECRET.as_bytes());
    let data = decode::<Value>(token, &key, &Validation::default())?;
    Ok(Claims {
        sub: data.claims["sub"].as_str().unwrap().to_string(),
        correo: data.claims["correo"].as_str().unwrap().to_string(),
        rol: data.claims["rol"].as_str().unwrap().to_string(),
        exp: data.claims["exp"].as_u64().unwrap() as usize,
    })
}

#[test]
fn a_missing_credential_is_its_own_failure() {
    assert_eq!(get_token_data(None), Err(AuthError::MissingCredential));
}

#[test]
fn a_valid_token_gives_its_claims() {
    let exp = far_future();
    let claims = get_token_data(Some(read(&sign("user", exp, SECRET)))).unwrap();
    assert_eq!(
        claims,
        Claims {
            sub: "42".to_string(),
            correo: "ana@example.com".to_string(),
            rol: "user".to_string(),
            exp: exp as usize,
        }
    );
}

#[test]
fn an_expired_token_is_reported_as_expired() {
    let decoded = read(&sign("admin", long_ago(), SECRET));
    assert!(decoded.is_err());
    assert_eq!(get_token_data(Some(decoded)), Err(AuthError::ExpiredToken));
}

#[test]
fn a_token_signed_with_another_secret_has_an_invalid_signature() {
    let decoded = read(&sign("admin", far_future(), "another-secret"));
    assert!(decoded.is_err());
    assert_eq!(get_token_data(Some(decoded)), Err(AuthError::InvalidSignature));
}

#[test]
fn a_token_that_cannot_be_read_is_malformed() {
    assert_eq!(get_token_data(Some(read("not-a-token"))), Err(AuthError::MalformedClaims));
    assert_eq!(get_token_data(Some(read("a.b.c"))), Err(AuthError::MalformedClaims));
    assert_eq!(get_token_data(Some(read(""))), Err(AuthError::MalformedClaims));
}

#[test]
fn a_token_without_an_expiry_is_malformed() {
    let mut claims = serde_json::Map::new();
    claims.insert("sub".to_string(), Value::from("42"));
    claims.insert("rol".to_string(), Value::from("admin"));
    let token = encode(
        &Header::default(),
        &Value::Object(claims),
        &EncodingKey::from_secret(SECRET.as_bytes()),
    )
    .unwrap();
    let key = DecodingKey::from_secret(SECRET.as_bytes());
    let error = decode::<Value>(&token, &key, &Validation::default()).unwrap_err();
    assert_eq!(get_token_data(Some(Err(error))), Err(AuthError::MalformedClaims));
}

#[test]
fn decoding_failures_map_to_authentication_errors() {
    assert_eq!(classify_failure(DecodeFailure::Expired), AuthError::ExpiredToken);
    assert_eq!(classify_failure(DecodeFailure::BadSignature), AuthError::InvalidSignature);
    assert_eq!(classify_failure(DecodeFailure::Other), AuthError::MalformedClaims);
}

#[test]
fn authentication_messages() {
    assert_eq!(AuthError::MissingCredential.message(), "Missing or incorrectly formatted token");
    assert_eq!(AuthError::ExpiredToken.message(), "Expired token");
    assert_eq!(AuthError::InvalidSignature.message(), "Invalid token signature");
    assert_eq!(AuthError::MalformedClaims.message(), "Token error: missing fields");
}
