//! Data carried by the authentication endpoints, and the small decisions
//! the authentication middleware makes.  Token issuance and verification
//! themselves live with the HTTP layer; this module holds what can be
//! stated and checked: the request and response shapes and the parsing of
//! the bearer header.

use vstd::prelude::*;
use vstd::string::*;
use crate::text::str_eq_str;

verus! {

/// A registration request.
pub struct RegisterRequest {
    pub email: String,
    pub first_name: String,
    pub last_name: String,
    pub password: String,
}

/// A login request.
pub struct LoginRequest {
    pub email: String,
    pub password: String,
}

/// A token-refresh request.
pub struct RefreshTokenRequest {
    pub refresh_token: String,
}

/// The public face of a user.
pub struct UserResponse {
    pub id: String,
    pub email: String,
    pub first_name: String,
    pub last_name: String,
}

/// A successful authentication: the two tokens and the user they belong to.
pub struct AuthResponse {
    pub token: String,
    pub refresh_token: String,
    pub user: UserResponse,
}

/// The claims carried inside a token: the subject (a user id), the
/// expiration time and the issue time, both as timestamps.
pub struct Claims {
    pub sub: String,
    pub exp: i64,
    pub iat: i64,
}

/// The middleware factory: wraps a service so that every request must
/// carry a valid bearer token.
#[derive(PartialEq, Eq, Structural)]
pub struct AuthMiddleware;

impl Default for AuthMiddleware {
    fn default() -> (r: Self)
        ensures
            r == AuthMiddleware,
    {
        AuthMiddleware
    }
}

/// A service wrapped by the authentication middleware.
pub struct AuthMiddlewareMiddleware<S> {
    pub service: S,
}

/// Wraps a service in the authentication middleware.
pub fn auth_middleware<S>(service: S) -> (m: AuthMiddlewareMiddleware<S>)
    ensures
        m.service == service,
{
    AuthMiddlewareMiddleware { service }
}

/// Whether a header value is a bearer credential: `"Bearer "` followed by
/// the token.
pub open spec fn is_bearer(header: Seq<char>) -> bool {
    header.len() >= 7 && header.take(7) == "Bearer "@
}

/// The token part of an `Authorization` header value, where the value has
/// the `Bearer` scheme.
pub fn bearer_token(header: &str) -> (r: Option<String>)
    ensures
        match r {
            Some(t) => is_bearer(header@) && t@ == header@.skip(7),
            None => !is_bearer(header@),
        },
{
    let n = header.unicode_len();
    if n < 7 {
        return None;
    }
    let prefix = header.substring_char(0, 7);
    proof {
        assert(prefix@ =~= header@.take(7));
    }
    if str_eq_str(prefix, "Bearer ") {
        let token = header.substring_char(7, n);
        proof {
            assert(token@ =~= header@.skip(7));
        }
        Some(token.to_owned())
    } else {
        None
    }
}

} // verus!
