//! Who is calling: the claims of the bearer token that came with a request.

use vstd::prelude::*;

use crate::entities::auth::Claims;

use super::UNAUTHORIZED;

verus! {

/// The caller of a protected endpoint, known by the claims of their token.
#[derive(Debug, Clone)]
pub struct AuthUser(pub Claims);

/// What became of the bearer token of a request.
#[derive(Debug, Clone)]
pub enum TokenCheck {
    /// The request carried no bearer token.
    Missing,
    /// The token did not decode with the service's secret, or has expired.
    Rejected,
    /// The token decoded to these claims.
    Accepted(Claims),
}

impl AuthUser {
    /// The caller, or the refusal: `401` with `token not found` or
    /// `token is not valid or expired`.
    pub fn from_token_check(check: TokenCheck) -> (r: Result<AuthUser, (u16, &'static str)>)
        ensures
            match check {
                TokenCheck::Missing => r matches Err(e) && e.0 == UNAUTHORIZED && e.1@
                    == "token not found"@,
                TokenCheck::Rejected => r matches Err(e) && e.0 == UNAUTHORIZED && e.1@
                    == "token is not valid or expired"@,
                TokenCheck::Accepted(c) => r matches Ok(u) && u.0 == c,
            },
    {
        match check {
            TokenCheck::Missing => Err((UNAUTHORIZED, "token not found")),
            TokenCheck::Rejected => Err((UNAUTHORIZED, "token is not valid or expired")),
            TokenCheck::Accepted(c) => Ok(AuthUser(c)),
        }
    }
}

} // verus!
