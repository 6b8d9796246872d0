//! The guard in front of protected pages: it takes the access token from
//! the request's cookies and turns the outcome of validation into a user or
//! an error.

use crate::auth::cookies::{cookie_in_headers, extract_cookie, ACCESS_TOKEN_COOKIE};
use crate::auth::jwt::{Claims, ValidationError};
use crate::auth::reply::{
    ErrorBody, ErrorBodyView, HttpReply, HttpReplyView, STATUS_FORBIDDEN, STATUS_INTERNAL_ERROR,
    STATUS_UNAUTHORIZED,
};
use crate::text::{from_chars, list_view, push_str_chars, to_chars};
use vstd::prelude::*;
use vstd::string::*;

verus! {

/// Message sent when the request carries no access token.
pub const MSG_MISSING_TOKEN: &'static str = "Missing access_token cookie";

/// Message sent when no validator is at hand.
pub const MSG_MISSING_VALIDATOR: &'static str = "Missing JwtValidator extension";

/// What every message about a refused token begins with.
pub const INVALID_TOKEN_PREFIX: &'static str = "Invalid token: ";

/// Why a request is refused.
#[derive(Debug)]
pub enum AuthError {
    /// The credential is missing or invalid.
    Unauthenticated(String),
    /// The credential is valid but does not suffice.
    Forbidden(String),
    /// Misconfiguration or a failing dependency.
    Internal(String),
}

/// A few words on why a token is refused. They hold nothing of the token.
pub open spec fn validation_message(error: ValidationError) -> Seq<char> {
    match error {
        ValidationError::Malformed => "malformed token"@,
        ValidationError::MissingKeyId => "token names no key"@,
        ValidationError::UnknownKeyId => "unknown key id"@,
        ValidationError::SignatureInvalid => "invalid signature"@,
        ValidationError::Expired => "token expired"@,
        ValidationError::IssuerMismatch => "issuer mismatch"@,
        ValidationError::AudienceMismatch => "audience mismatch"@,
        ValidationError::Internal => "signing keys unavailable"@,
    }
}

/// The reply that reports an error: 401, 403 or 500 with a JSON body of
/// `error`, `message` and, but for internal errors, `code`.
pub open spec fn error_reply(error: AuthError) -> HttpReplyView {
    match error {
        AuthError::Unauthenticated(msg) => HttpReplyView {
            status: STATUS_UNAUTHORIZED,
            location: None,
            set_cookies: Seq::empty(),
            body: Some(
                ErrorBodyView::Auth {
                    error: "Authentication required"@,
                    message: msg@,
                    code: Some("UNAUTHENTICATED"@),
                },
            ),
        },
        AuthError::Forbidden(msg) => HttpReplyView {
            status: STATUS_FORBIDDEN,
            location: None,
            set_cookies: Seq::empty(),
            body: Some(
                ErrorBodyView::Auth {
                    error: "Access denied"@,
                    message: msg@,
                    code: Some("FORBIDDEN"@),
                },
            ),
        },
        AuthError::Internal(msg) => HttpReplyView {
            status: STATUS_INTERNAL_ERROR,
            location: None,
            set_cookies: Seq::empty(),
            body: Some(
                ErrorBodyView::Auth {
                    error: "Internal server error"@,
                    message: msg@,
                    code: None,
                },
            ),
        },
    }
}

impl ValidationError {
    /// A few words on why a token is refused.
    pub fn message(&self) -> (msg: &'static str)
        ensures
            msg@ == validation_message(*self),
    {
        match self {
            ValidationError::Malformed => "malformed token",
            ValidationError::MissingKeyId => "token names no key",
            ValidationError::UnknownKeyId => "unknown key id",
            ValidationError::SignatureInvalid => "invalid signature",
            ValidationError::Expired => "token expired",
            ValidationError::IssuerMismatch => "issuer mismatch",
            ValidationError::AudienceMismatch => "audience mismatch",
            ValidationError::Internal => "signing keys unavailable",
        }
    }
}

impl AuthError {
    /// The reply that reports this error.
    pub fn into_response(self) -> (reply: HttpReply)
        ensures
            reply@ == error_reply(self),
    {
        let (status, error, message, code) = match self {
            AuthError::Unauthenticated(msg) => (
                STATUS_UNAUTHORIZED,
                "Authentication required",
                msg,
                Some("UNAUTHENTICATED".to_owned()),
            ),
            AuthError::Forbidden(msg) => (
                STATUS_FORBIDDEN,
                "Access denied",
                msg,
                Some("FORBIDDEN".to_owned()),
            ),
            AuthError::Internal(msg) => (
                STATUS_INTERNAL_ERROR,
                "Internal server error",
                msg,
                None,
            ),
        };
        let reply = HttpReply {
            status,
            location: None,
            set_cookies: Vec::new(),
            body: Some(ErrorBody::Auth { error: error.to_owned(), message, code }),
        };
        assert(list_view(reply.set_cookies@) =~= Seq::<Seq<char>>::empty());
        reply
    }
}

/// A user whose access token has been validated.
pub struct AuthenticatedUser {
    /// The claims of the token.
    pub claims: Claims,
    /// The realm roles of the token.
    pub roles: Vec<String>,
}

impl AuthenticatedUser {
    /// Takes the access token from the request's `Cookie` headers.
    pub fn access_token(cookie_headers: &Vec<String>) -> (r: Result<String, AuthError>)
        ensures
            match r {
                Ok(token) => cookie_in_headers(list_view(cookie_headers@), ACCESS_TOKEN_COOKIE@)
                    == Some(token@),
                Err(e) => {
                    &&& cookie_in_headers(list_view(cookie_headers@), ACCESS_TOKEN_COOKIE@) is None
                    &&& e matches AuthError::Unauthenticated(msg)
                    &&& msg@ == MSG_MISSING_TOKEN@
                },
            },
    {
        match extract_cookie(cookie_headers, ACCESS_TOKEN_COOKIE) {
            Some(token) => Ok(token),
            None => Err(AuthError::Unauthenticated(MSG_MISSING_TOKEN.to_owned())),
        }
    }

    /// The error for a request that reaches the guard without a validator.
    pub fn missing_validator() -> (e: AuthError)
        ensures
            e matches AuthError::Internal(msg) && msg@ == MSG_MISSING_VALIDATOR@,
    {
        AuthError::Internal(MSG_MISSING_VALIDATOR.to_owned())
    }

    /// Turns the outcome of validation into a user with the token's roles,
    /// or into the error that says why the token is refused.
    pub fn from_validation(outcome: Result<Claims, ValidationError>) -> (r: Result<
        AuthenticatedUser,
        AuthError,
    >)
        ensures
            match outcome {
                Ok(claims) => r matches Ok(user) && user.claims == claims && list_view(user.roles@)
                    == claims.spec_roles(),
                Err(error) => r matches Err(AuthError::Unauthenticated(msg)) && msg@
                    == INVALID_TOKEN_PREFIX@ + validation_message(error),
            },
    {
        match outcome {
            Ok(claims) => {
                let roles = claims.roles();
                Ok(AuthenticatedUser { claims, roles })
            },
            Err(error) => {
                let mut msg = to_chars(INVALID_TOKEN_PREFIX);
                push_str_chars(&mut msg, error.message());
                Err(AuthError::Unauthenticated(from_chars(&msg)))
            },
        }
    }
}

} // verus!
