//! Login requests, issued tokens and the claims a token carries.

use vstd::prelude::*;

use super::{is_valid_email, valid_email};

verus! {

/// A signed token handed to a user who logged in, with the moment (in Unix
/// seconds) at which it stops being accepted.
pub struct Token {
    pub token: String,
    pub expire: i64,
}

/// The credentials a user logs in with.
pub struct Login {
    pub email: String,
    pub password: String,
}

/// What a token says of its holder: the user's id (`sub`), when it expires
/// and was issued (Unix seconds), who issued it and the holder's role.
#[derive(Debug, Clone)]
pub struct Claims {
    pub sub: i64,
    pub exp: i64,
    pub iat: i64,
    pub iss: String,
    pub role: String,
}

/// Why a login request is refused before any lookup, if it is.
pub open spec fn login_problem(email: Seq<char>, password: Seq<char>) -> Option<Seq<char>> {
    if email.len() == 0 || password.len() == 0 {
        Some("email and password must not be empty"@)
    } else if !valid_email(email) {
        Some("invalid email address"@)
    } else {
        None
    }
}

/// A login with an e-mail address and a non-empty password, whatever
/// characters it holds, passes the request check; empty credentials are
/// refused as empty; otherwise an address that is not an e-mail address is
/// refused as such.
pub proof fn login_refusals(email: Seq<char>, password: Seq<char>)
    ensures
        email.len() > 0 && password.len() > 0 && valid_email(email) ==> login_problem(
            email,
            password,
        ) is None,
        email.len() == 0 || password.len() == 0 ==> login_problem(email, password) == Some(
            "email and password must not be empty"@,
        ),
        email.len() > 0 && password.len() > 0 && !valid_email(email) ==> login_problem(
            email,
            password,
        ) == Some("invalid email address"@),
{
}

impl Login {
    /// Refuses empty credentials, then an address that is not an e-mail
    /// address.
    pub fn validate(&self) -> (r: Result<(), &'static str>)
        ensures
            match login_problem(self.email@, self.password@) {
                None => r is Ok,
                Some(m) => r matches Err(e) && e@ == m,
            },
    {
        if self.email.as_str().is_empty() || self.password.as_str().is_empty() {
            return Err("email and password must not be empty");
        }
        if !is_valid_email(self.email.as_str()) {
            return Err("invalid email address");
        }
        Ok(())
    }
}

} // verus!
