//! Bearer-token claims and the classification of what decoding a token gave.

use jsonwebtoken::errors::{Error, ErrorKind};
use vstd::prelude::*;

verus! {

/// The decoded payload of a bearer token.
#[derive(Debug, Clone, PartialEq, Eq)]
pub struct Claims {
    pub sub: String,
    pub correo: String,
    pub rol: String,
    pub exp: usize,
}

/// Why a request could not be authenticated.
#[derive(Debug, Clone, Copy, PartialEq, Eq, Structural)]
pub enum AuthError {
    /// The request carried no bearer credential.
    MissingCredential,
    /// The token's expiry instant has passed.
    ExpiredToken,
    /// The token's signature does not match its content.
    InvalidSignature,
    /// Anything else: the token or its claims could not be read.
    MalformedClaims,
}

/// The failures of decoding that are told apart.
#[derive(Debug, Clone, Copy, PartialEq, Eq, Structural)]
pub enum DecodeFailure {
    Expired,
    BadSignature,
    Other,
}

/// `jsonwebtoken::errors::Error`, the error of decoding a token. It is opaque:
/// only `failure_of` looks inside.
#[verifier::external_type_specification]
#[verifier::external_body]
pub struct ExTokenError(Error);

/// The class of a decoding error: `Expired` for the kind `ExpiredSignature`,
/// `BadSignature` for the kind `InvalidSignature`, `Other` for every other kind.
pub uninterp spec fn failure_class(error: Error) -> DecodeFailure;

/// Reads the kind of a decoding error through `jsonwebtoken::errors::Error::kind`
/// and tells the kinds `ExpiredSignature` and `InvalidSignature` apart from all
/// the others. The contract only gives the answer its name, `failure_class`:
/// an error always has the same class.
#[verifier::external_body]
fn failure_of(error: &Error) -> (class: DecodeFailure)
    ensures
        class == failure_class(*error),
{
    match error.kind() {
        ErrorKind::ExpiredSignature => DecodeFailure::Expired,
        ErrorKind::InvalidSignature => DecodeFailure::BadSignature,
        _ => DecodeFailure::Other,
    }
}

impl AuthError {
    /// The text shown to the caller.
    pub open spec fn spec_message(&self) -> Seq<char> {
        match self {
            AuthError::MissingCredential => "Missing or incorrectly formatted token"@,
            AuthError::ExpiredToken => "Expired token"@,
            AuthError::InvalidSignature => "Invalid token signature"@,
            AuthError::MalformedClaims => "Token error: missing fields"@,
        }
    }

    /// The text shown to the caller.
    pub fn message(&self) -> (text: String)
        ensures
            text@ == self.spec_message(),
    {
        match self {
            AuthError::MissingCredential => "Missing or incorrectly formatted token".to_owned(),
            AuthError::ExpiredToken => "Expired token".to_owned(),
            AuthError::InvalidSignature => "Invalid token signature".to_owned(),
            AuthError::MalformedClaims => "Token error: missing fields".to_owned(),
        }
    }
}

/// The authentication error that stands for a class of decoding failure.
pub open spec fn auth_error_of(failure: DecodeFailure) -> AuthError {
    match failure {
        DecodeFailure::Expired => AuthError::ExpiredToken,
        DecodeFailure::BadSignature => AuthError::InvalidSignature,
        DecodeFailure::Other => AuthError::MalformedClaims,
    }
}

/// What authentication answers to `auth`.
pub open spec fn token_data(auth: Option<Result<Claims, Error>>) -> Result<Claims, AuthError> {
    match auth {
        None => Err(AuthError::MissingCredential),
        Some(Ok(claims)) => Ok(claims),
        Some(Err(error)) => Err(auth_error_of(failure_class(error))),
    }
}

/// Maps a class of decoding failure to the authentication error reported for it.
pub fn classify_failure(failure: DecodeFailure) -> (e: AuthError)
    ensures
        e == auth_error_of(failure),
{
    match failure {
        DecodeFailure::Expired => AuthError::ExpiredToken,
        DecodeFailure::BadSignature => AuthError::InvalidSignature,
        DecodeFailure::Other => AuthError::MalformedClaims,
    }
}

/// Authenticates a request. `auth` is `None` where the request carried no
/// bearer credential, and otherwise what decoding the credential against the
/// shared secret gave: the claims, or the decoder's error.
pub fn get_token_data(auth: Option<Result<Claims, Error>>) -> (r: Result<Claims, AuthError>)
    ensures
        r == token_data(auth),
{
    match auth {
        None => Err(AuthError::MissingCredential),
        Some(Ok(claims)) => Ok(claims),
        Some(Err(error)) => {
            let failure: DecodeFailure = failure_of(&error);
            Err(classify_failure(failure))
        },
    }
}

} // verus!
