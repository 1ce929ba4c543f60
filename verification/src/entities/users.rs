//! Users and their roles.

use vstd::prelude::*;

use crate::text::str_eq;

use super::{is_valid_email, valid_email};

verus! {

/// A registered user. `password` holds the stored password hash where a
/// query reads it, and is left empty in what the service hands out.
#[derive(Debug, Clone, PartialEq, Default)]
pub struct User {
    pub id: i64,
    pub full_name: String,
    pub email: String,
    pub password: Option<String>,
    pub role: String,
    pub created_at: Option<chrono::NaiveDateTime>,
}

/// A sign-up request.
#[derive(Debug, Clone)]
pub struct CreateUser {
    pub full_name: String,
    pub email: String,
    pub password: Option<String>,
}

/// Why a sign-up request is refused, if it is: no or an empty password or
/// address first, then an address that is not an e-mail address.
pub open spec fn signup_problem(email: Seq<char>, password: Option<String>) -> Option<Seq<char>> {
    if email.len() == 0 || password is None || password->0@.len() == 0 {
        Some("email and password must not be empty"@)
    } else if !valid_email(email) {
        Some("invalid email address"@)
    } else {
        None
    }
}

/// A sign-up with an e-mail address and a non-empty password of any length
/// and any characters passes; one without a password, with an empty one or
/// without an address is refused as empty; one whose address is not an
/// e-mail address is refused as such.
pub proof fn signup_refusals(email: Seq<char>, password: Option<String>)
    ensures
        email.len() > 0 && valid_email(email) && password is Some && password->0@.len() > 0
            ==> signup_problem(email, password) is None,
        email.len() == 0 || password is None || password->0@.len() == 0 ==> signup_problem(
            email,
            password,
        ) == Some("email and password must not be empty"@),
        email.len() > 0 && password is Some && password->0@.len() > 0 && !valid_email(email)
            ==> signup_problem(email, password) == Some("invalid email address"@),
{
}

impl CreateUser {
    /// Refuses a sign-up without an address or a password, then one whose
    /// address is not an e-mail address. A request that passes carries a
    /// password.
    pub fn validate(&self) -> (r: Result<(), &'static str>)
        ensures
            match signup_problem(self.email@, self.password) {
                None => r is Ok,
                Some(m) => r matches Err(e) && e@ == m,
            },
            r is Ok ==> self.password is Some,
    {
        let no_password = match &self.password {
            Some(p) => p.as_str().is_empty(),
            None => true,
        };
        if self.email.as_str().is_empty() || no_password {
            return Err("email and password must not be empty");
        }
        if !is_valid_email(self.email.as_str()) {
            return Err("invalid email address");
        }
        Ok(())
    }
}

/// A request to change a user's name and address.
#[derive(Debug, Clone)]
pub struct UpdateUser {
    pub full_name: String,
    pub email: String,
    pub password: Option<String>,
}

/// The roles a user can hold.
#[derive(Debug, Clone, Copy, PartialEq, Eq, Structural)]
pub enum Role {
    User,
    Admin,
    Publisher,
}

/// The role a name stands for: `user`/`User` and `admin`/`Admin`; no name
/// stands for `Publisher`.
pub open spec fn role_named(name: Seq<char>) -> Option<Role> {
    if name == "user"@ || name == "User"@ {
        Some(Role::User)
    } else if name == "admin"@ || name == "Admin"@ {
        Some(Role::Admin)
    } else {
        None
    }
}

/// No name stands for the publisher role: `check_role` never grants it.
pub proof fn no_name_for_publisher(name: Seq<char>)
    ensures
        role_named(name) != Some(Role::Publisher),
{
}

impl Role {
    /// The role that `role` names, or the error `Unknown role`.
    pub fn check_role(role: &str) -> (r: Result<Role, &'static str>)
        ensures
            match role_named(role@) {
                Some(x) => r == Ok::<Role, &'static str>(x),
                None => r matches Err(e) && e@ == "Unknown role"@,
            },
    {
        if str_eq(role, "user") || str_eq(role, "User") {
            Ok(Role::User)
        } else if str_eq(role, "admin") || str_eq(role, "Admin") {
            Ok(Role::Admin)
        } else {
            Err("Unknown role")
        }
    }
}

} // verus!
