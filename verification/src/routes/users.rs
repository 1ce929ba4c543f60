//! Sign-up, login, logout and the user endpoints.

use vstd::prelude::*;
use vstd::utf8::encode_utf8;

use crate::config::Config;
use crate::decimal::{i64_from_decimal, u64_from_decimal, unsigned_reads_as_signed};
use crate::entities::auth::{login_problem, Claims, Login, Token};
use crate::entities::users::{signup_problem, CreateUser, UpdateUser, User};
use crate::password::{
    argon2_hash, argon2_max_password_len, argon2_verify, argon2_verify_result, generate_salt,
    is_salted_argon2id_hash,
};
use crate::text::str_eq;

use super::{
    found_or_not_found, is_error, or_bad_request, AppError, FORBIDDEN, INTERNAL_SERVER_ERROR,
    UNAUTHORIZED, UNPROCESSABLE_ENTITY,
};

verus! {

/// A login with `password` passes the check against the stored hash `stored`.
pub open spec fn password_accepted(password: Seq<char>, stored: Seq<char>) -> bool {
    argon2_verify_result(password, stored) == Some(true)
}

/// A user may reach the resources of user `id` when they are that user or an
/// admin.
pub open spec fn may_reach(claims: Claims, id: i64) -> bool {
    claims.sub == id || claims.role@ == "admin"@
}

/// Every user reaches their own resources, an admin reaches everyone's, and
/// a request is refused only when it comes from another user who is not an
/// admin.
pub proof fn owners_and_admins_reach(claims: Claims, id: i64)
    ensures
        claims.sub == id ==> may_reach(claims, id),
        claims.role@ == "admin"@ ==> may_reach(claims, id),
        !may_reach(claims, id) <==> (claims.sub != id && claims.role@ != "admin"@),
{
}

/// Lets a request on user `id` through, or refuses it with `403 Forbidden`.
pub fn own_resource_check(claims: &Claims, id: i64) -> (r: Result<(), u16>)
    ensures
        r is Ok <==> may_reach(*claims, id),
        r is Err ==> r == Err::<(), u16>(FORBIDDEN),
{
    if claims.sub != id && !str_eq(claims.role.as_str(), "admin") {
        return Err(FORBIDDEN);
    }
    Ok(())
}

/// Replaces the password of a sign-up request by its Argon2 hash, under a
/// fresh random salt. A failure of the hashing is an internal error. The
/// stored hash lets the same password pass the login check.
pub fn hash_signup_password(payload: CreateUser) -> (r: Result<CreateUser, AppError>)
    requires
        payload.password is Some,
    ensures
        r matches Ok(p) ==> {
            &&& p.full_name == payload.full_name
            &&& p.email == payload.email
            &&& p.password matches Some(h) && password_accepted(payload.password->0@, h@)
                && is_salted_argon2id_hash(h@)
        },
        r matches Err(a) ==> a.status_code == INTERNAL_SERVER_ERROR,
        encode_utf8(payload.password->0@).len() <= argon2_max_password_len() ==> r is Ok,
{
    let CreateUser { full_name, email, password } = payload;
    let password = password.unwrap();
    let salt = generate_salt();
    match argon2_hash(password.as_str(), &salt) {
        Ok(h) => Ok(CreateUser { full_name, email, password: Some(h) }),
        Err(e) => Err(AppError::internal(e.as_str())),
    }
}

/// A sign-up request checked and made ready to store: refused with `422`
/// when it lacks an address or a password or its address is not an e-mail
/// address; otherwise its password is replaced by its Argon2 hash, which
/// succeeds for any password of at most `0xFFFF_FFFF` bytes.
pub fn sign_up(payload: CreateUser) -> (r: Result<CreateUser, AppError>)
    ensures
        match signup_problem(payload.email@, payload.password) {
            Some(m) => r matches Err(a) && is_error(a, UNPROCESSABLE_ENTITY, m),
            None => {
                &&& r matches Ok(p) ==> {
                    &&& p.full_name == payload.full_name
                    &&& p.email == payload.email
                    &&& p.password matches Some(h) && password_accepted(payload.password->0@, h@)
                        && is_salted_argon2id_hash(h@)
                }
                &&& r matches Err(a) ==> a.status_code == INTERNAL_SERVER_ERROR
                &&& encode_utf8(payload.password->0@).len() <= argon2_max_password_len() ==> r is Ok
            },
        },
{
    match payload.validate() {
        Err(m) => Err(AppError::unprocessable(m)),
        Ok(()) => hash_signup_password(payload),
    }
}

/// The user that a stored sign-up is answered with: the new id, the name
/// and address, the role `user`, and no password.
pub fn created_user(payload: CreateUser, outcome: Result<i64, String>) -> (r: Result<User, AppError>)
    ensures
        match outcome {
            Ok(id) => r matches Ok(u) && {
                &&& u.id == id
                &&& u.full_name == payload.full_name
                &&& u.email == payload.email
                &&& u.password is None
                &&& u.created_at is None
                &&& u.role@ == "user"@
            },
            Err(e) => r matches Err(a) && is_error(a, super::BAD_REQUEST, e@),
        },
{
    match or_bad_request(outcome) {
        Ok(id) => Ok(
            User {
                id,
                full_name: payload.full_name,
                email: payload.email,
                created_at: None,
                password: None,
                role: "user".to_owned(),
            },
        ),
        Err(a) => Err(a),
    }
}

/// The user that a stored change is answered with: the id the store gave
/// back, the new name and address, the role `user`, and no password. When
/// no user has that id, `404 user not found`.
pub fn updated_user(payload: UpdateUser, outcome: Result<Option<i64>, String>) -> (r: Result<
    User,
    AppError,
>)
    ensures
        match outcome {
            Ok(Some(id)) => r matches Ok(u) && {
                &&& u.id == id
                &&& u.full_name == payload.full_name
                &&& u.email == payload.email
                &&& u.password is None
                &&& u.created_at is None
                &&& u.role@ == "user"@
            },
            Ok(None) => r matches Err(a) && is_error(a, super::NOT_FOUND, "user not found"@),
            Err(e) => r matches Err(a) && is_error(a, super::BAD_REQUEST, e@),
        },
{
    match found_or_not_found(outcome, "user not found") {
        Ok(id) => Ok(
            User {
                id,
                full_name: payload.full_name,
                email: payload.email,
                created_at: None,
                password: None,
                role: "user".to_owned(),
            },
        ),
        Err(a) => Err(a),
    }
}

/// The answer to a lookup of one user by id.
pub fn user_found(outcome: Result<Option<User>, String>) -> (r: Result<User, AppError>)
    ensures
        match outcome {
            Ok(Some(u)) => r == Ok::<User, AppError>(u),
            Ok(None) => r matches Err(a) && is_error(a, super::NOT_FOUND, "user not found"@),
            Err(e) => r matches Err(a) && is_error(a, super::BAD_REQUEST, e@),
        },
{
    found_or_not_found(outcome, "user not found")
}

/// The answer to a deletion of a user: the id of the user removed.
pub fn user_deleted(outcome: Result<Option<i64>, String>) -> (r: Result<i64, AppError>)
    ensures
        match outcome {
            Ok(Some(id)) => r == Ok::<i64, AppError>(id),
            Ok(None) => r matches Err(a) && is_error(a, super::NOT_FOUND, "user not found"@),
            Err(e) => r matches Err(a) && is_error(a, super::BAD_REQUEST, e@),
        },
{
    found_or_not_found(outcome, "user not found")
}

/// Checks the password of a login against the user's stored hash: passed,
/// refused as `401 incorrect password`, or `None` when the stored hash is
/// not one the hasher can read.
pub fn check_login_password(payload: &Login, user: &User) -> (r: Option<Result<(), AppError>>)
    requires
        user.password is Some,
    ensures
        match argon2_verify_result(payload.password@, user.password->0@) {
            None => r is None,
            Some(true) => r == Some(Ok::<(), AppError>(())),
            Some(false) => r matches Some(Err(a)) && is_error(a, UNAUTHORIZED, "incorrect password"@),
        },
{
    let stored = user.password.as_ref().unwrap();
    match argon2_verify(payload.password.as_str(), stored.as_str()) {
        None => None,
        Some(true) => Some(Ok(())),
        Some(false) => Some(Err(AppError::unauthorized("incorrect password"))),
    }
}

/// The moments, in Unix seconds, that the service's clock can name: from
/// the start of year -9999 to the end of year 9999.
pub open spec fn within_clock_range(t: int) -> bool {
    -377_705_116_800 <= t <= 253_402_300_799
}

/// A login request checked before any lookup: refused with `422` when the
/// address or the password is empty, then when the address is not an
/// e-mail address.
pub fn check_login_request(payload: &Login) -> (r: Result<(), AppError>)
    ensures
        match login_problem(payload.email@, payload.password@) {
            None => r is Ok,
            Some(m) => r matches Err(a) && is_error(a, UNPROCESSABLE_ENTITY, m),
        },
{
    match payload.validate() {
        Ok(()) => Ok(()),
        Err(m) => Err(AppError::unprocessable(m)),
    }
}

/// The login step: the claims of the token to issue at `now`, issued only
/// for a valid request, only to the user found under the address, and only
/// when the password passes the check against that user's stored hash. An
/// invalid request is `422`; an unknown address and a wrong password are
/// `401`; a failed lookup is a bad request. `None` where the service stops
/// instead of answering: the stored hash cannot be read, the configured
/// lifetime is not a number, or the expiry falls outside the moments the
/// clock can name.
pub fn login_claims(payload: &Login, lookup: Result<Option<User>, String>, config: &Config, now: i64) -> (r:
    Option<Result<Claims, AppError>>)
    requires
        lookup matches Ok(Some(u)) ==> u.password is Some,
    ensures
        match login_problem(payload.email@, payload.password@) {
            Some(m) => r matches Some(Err(a)) && is_error(a, UNPROCESSABLE_ENTITY, m),
            None => match lookup {
                Err(e) => r matches Some(Err(a)) && is_error(a, super::BAD_REQUEST, e@),
                Ok(None) => r matches Some(Err(a)) && is_error(a, UNAUTHORIZED, "user not found"@),
                Ok(Some(u)) => match argon2_verify_result(payload.password@, u.password->0@) {
                    None => r is None,
                    Some(false) => r matches Some(Err(a)) && is_error(
                        a,
                        UNAUTHORIZED,
                        "incorrect password"@,
                    ),
                    Some(true) => match i64_from_decimal(config.jwt_expires_time@) {
                        Some(secs) => if within_clock_range(now + secs) {
                            r matches Some(Ok(c)) && {
                                &&& c.sub == u.id
                                &&& c.iat == now
                                &&& c.exp == now + secs
                                &&& c.iss == config.jwt_issuer
                                &&& c.role == u.role
                            }
                        } else {
                            r is None
                        },
                        None => r is None,
                    },
                },
            },
        },
{
    if let Err(a) = check_login_request(payload) {
        return Some(Err(a));
    }
    let user = match lookup {
        Err(e) => return Some(Err(AppError::bad_request(e.as_str()))),
        Ok(None) => return Some(Err(AppError::unauthorized("user not found"))),
        Ok(Some(u)) => u,
    };
    match check_login_password(payload, &user) {
        None => return None,
        Some(Err(a)) => return Some(Err(a)),
        Some(Ok(())) => {},
    }
    let secs = match config.expires_secs() {
        Some(s) => s,
        None => return None,
    };
    match now.checked_add(secs) {
        Some(exp) => {
            if -377_705_116_800 <= exp && exp <= 253_402_300_799 {
                Some(Ok(issue_claims(&user, config, now)))
            } else {
                None
            }
        },
        None => None,
    }
}

/// The claims of a token issued at `now` (Unix seconds) to `user`: it names
/// the user and their role, the configured issuer, and expires the
/// configured number of seconds later.
pub fn issue_claims(user: &User, config: &Config, now: i64) -> (c: Claims)
    requires
        i64_from_decimal(config.jwt_expires_time@) is Some,
        within_clock_range(now + i64_from_decimal(config.jwt_expires_time@)->0),
    ensures
        c.sub == user.id,
        c.iat == now,
        c.exp == now + i64_from_decimal(config.jwt_expires_time@)->0,
        c.iss == config.jwt_issuer,
        c.role == user.role,
{
    let secs = config.expires_secs().unwrap();
    Claims {
        sub: user.id,
        exp: now + secs,
        iat: now,
        iss: config.jwt_issuer.clone(),
        role: user.role.clone(),
    }
}

/// The answer to a login: the signed token and the moment it expires.
pub fn token_for(token: String, claims: &Claims) -> (t: Token)
    ensures
        t.token == token,
        t.expire == claims.exp,
{
    Token { token, expire: claims.exp }
}

/// What a logout does: with an `auth_token` cookie, that token is to be
/// refused for the configured number of seconds; without one, nothing.
pub fn logout_plan(cookie: Option<String>, config: &Config) -> (r: Option<(String, u64)>)
    requires
        cookie is Some ==> u64_from_decimal(config.jwt_expires_time@) is Some,
    ensures
        match cookie {
            None => r is None,
            Some(t) => r == Some((t, u64_from_decimal(config.jwt_expires_time@)->0)),
        },
{
    match cookie {
        None => None,
        Some(token) => {
            let secs = config.expires_secs_unsigned().unwrap();
            Some((token, secs))
        },
    }
}

/// A logout denies a token for as long as a token lives: when the
/// configured lifetime reads as an unsigned number that fits `i64`, the
/// seconds `logout_plan` denies a token for are the seconds `issue_claims`
/// puts between a token's issue and its expiry.
pub proof fn logout_denies_for_token_lifetime(config: Config)
    requires
        u64_from_decimal(config.jwt_expires_time@) matches Some(secs) && secs <= i64::MAX,
    ensures
        i64_from_decimal(config.jwt_expires_time@) matches Some(lifetime) && lifetime
            == u64_from_decimal(config.jwt_expires_time@)->0,
{
    unsigned_reads_as_signed(config.jwt_expires_time@);
}

/// The answer to a logout, once the token was handed to the deny list.
pub fn logout_done(outcome: Result<(), String>) -> (r: Result<(), AppError>)
    ensures
        outcome is Ok ==> r is Ok,
        outcome is Err ==> (r matches Err(a) && is_error(
            a,
            INTERNAL_SERVER_ERROR,
            "failed to invalidate token"@,
        )),
{
    match outcome {
        Ok(()) => Ok(()),
        Err(_) => Err(AppError::internal("failed to invalidate token")),
    }
}

} // verus!
