use inventario_api::middleware::token::{AuthError, Claims};
use inventario_api::middleware::{authorize, user_validate, validate_request, worker_validate};
use inventario_api::reply::{Content, Notice, Reply, Status};
use inventario_api::routes::{guard, Operation};
use jsonwebtoken::errors::Error;
use jsonwebtoken::{decode, DecodingKey, Validation};
use serde_json::Value;

fn claims(rol: &str) -> Claims {
    Claims {
        sub: "42".to_string(),
        correo: "ana@example.com".to_string(),
        rol: rol.to_string(),
        exp: 4_102_444_800,
    }
}

fn granted(rol: &str) -> Option<Result<Claims, Error>> {
    Some(Ok(claims(rol)))
}

fn unreadable() -> Option<Result<Claims, Error>> {
    let key = DecodingKey::from_secret(b"a-shared-secret");
    let error = decode::<Value>("not-a-token", &key, &Validation::default()).unwrap_err();
    Some(Err(error))
}

fn forbidden() -> Reply {
    Reply {
        status: Status::Forbidden,
        notice: Some(Notice::InsufficientRole),
        content: Content::Nothing,
    }
}

fn unauthorized(e: AuthError) -> Reply {
    Reply { status: Status::Unauthorized, notice: Some(Notice::Token(e)), content: Content::Nothing }
}

fn roles(names: &[&str]) -> Vec<String> {
    names.iter().map(|name| name.to_string()).collect()
}

#[test]
fn a_listed_role_is_allowed() {
    let required = roles(&["admin", "user"]);
    assert!(authorize(&"admin".to_string(), &required));
    assert!(authorize(&"user".to_string(), &required));
}

#[test]
fn an_unlisted_role_is_denied() {
    let required = roles(&["admin"]);
    assert!(!authorize(&"user".to_string(), &required));
    assert!(!authorize(&"".to_string(), &required));
    assert!(!authorize(&"admin".to_string(), &[]));
}

#[test]
fn roles_match_letter_for_letter() {
    let required = roles(&["admin", "user"]);
    assert!(!authorize(&"Admin".to_string(), &required));
    assert!(!authorize(&"adm".to_string(), &required));
    assert!(!authorize(&"admin ".to_string(), &required));
    assert!(!authorize(&"adminuser".to_string(), &required));
}

#[test]
fn a_user_is_forbidden_what_asks_for_an_administrator() {
    assert_eq!(worker_validate(granted("user")), Err(forbidden()));
    assert_eq!(forbidden().status.code(), 403);
}

#[test]
fn an_administrator_passes_both_guards() {
    assert_eq!(worker_validate(granted("admin")), Ok(claims("admin")));
    assert_eq!(user_validate(granted("admin")), Ok(claims("admin")));
}

#[test]
fn a_user_passes_the_general_guard() {
    assert_eq!(user_validate(granted("user")), Ok(claims("user")));
}

#[test]
fn an_unknown_role_passes_no_guard() {
    assert_eq!(user_validate(granted("guest")), Err(forbidden()));
    assert_eq!(worker_validate(granted("guest")), Err(forbidden()));
}

#[test]
fn a_request_without_credential_is_unauthorized() {
    assert_eq!(user_validate(None), Err(unauthorized(AuthError::MissingCredential)));
    assert_eq!(worker_validate(None), Err(unauthorized(AuthError::MissingCredential)));
    assert_eq!(unauthorized(AuthError::MissingCredential).status.code(), 401);
}

#[test]
fn a_request_with_an_unreadable_token_is_unauthorized() {
    assert_eq!(user_validate(unreadable()), Err(unauthorized(AuthError::MalformedClaims)));
    assert_eq!(worker_validate(unreadable()), Err(unauthorized(AuthError::MalformedClaims)));
}

#[test]
fn the_guard_takes_any_list_of_roles() {
    let auditors = roles(&["auditor"]);
    assert_eq!(validate_request(granted("auditor"), &auditors), Ok(claims("auditor")));
    assert_eq!(validate_request(granted("admin"), &auditors), Err(forbidden()));
    assert_eq!(
        validate_request(None, &auditors),
        Err(unauthorized(AuthError::MissingCredential))
    );
}

#[test]
fn reads_and_adjustments_are_open_to_users() {
    for operation in [
        Operation::GetProductById,
        Operation::GetProductBySku,
        Operation::GetAllProducts,
        Operation::ChangeById,
    ] {
        assert!(!operation.administrative());
        assert_eq!(guard(operation, granted("user")), Ok(claims("user")));
        assert_eq!(guard(operation, granted("admin")), Ok(claims("admin")));
        assert_eq!(guard(operation, granted("guest")), Err(forbidden()));
    }
}

#[test]
fn writes_are_reserved_to_administrators() {
    for operation in
        [Operation::AddNewProduct, Operation::UpdateProductById, Operation::DeleteProduct]
    {
        assert!(operation.administrative());
        assert_eq!(guard(operation, granted("user")), Err(forbidden()));
        assert_eq!(guard(operation, granted("admin")), Ok(claims("admin")));
        assert_eq!(guard(operation, None), Err(unauthorized(AuthError::MissingCredential)));
    }
}
