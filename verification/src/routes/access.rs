//! The access check that guards the protected endpoints: the caller's role,
//! the request's path and its method are put to the policy enforcer, and its
//! answer decides whether the request goes through.
//!
//! The enforcer itself is asked by the program around this library: casbin
//! reads role links through shared handles and can stop the program on
//! models and policies this library cannot see into, so no contract here
//! could describe its answer.

use vstd::prelude::*;

use crate::entities::auth::Claims;

use super::{FORBIDDEN, INTERNAL_SERVER_ERROR};

verus! {

/// The policy enforcer, holding the model and the stored policies.
#[verifier::external_type_specification]
#[verifier::external_body]
pub struct ExEnforcer(casbin::Enforcer);

/// A failure of the enforcer.
#[verifier::external_type_specification]
#[verifier::external_body]
pub struct ExCasbinError(casbin::Error);

/// What is put to the enforcer: who asks, for what, and how.
#[derive(Debug, Clone)]
pub struct AccessRequest {
    pub subject: String,
    pub object: String,
    pub action: String,
}

/// The access request for a call of `method` on `path` by the holder of
/// `claims`: the subject is the holder's role.
pub fn access_request(claims: &Claims, path: &str, method: &str) -> (r: AccessRequest)
    ensures
        r.subject == claims.role,
        r.object@ == path@,
        r.action@ == method@,
{
    AccessRequest { subject: claims.role.clone(), object: path.to_owned(), action: method.to_owned() }
}

/// What the enforcer's answer means for the request: through when allowed,
/// `403 Forbidden` when denied, `500 Internal Server Error` when the
/// enforcer failed.
pub fn casbin_decision(enforced: Result<bool, casbin::Error>) -> (r: Result<(), u16>)
    ensures
        match enforced {
            Ok(true) => r is Ok,
            Ok(false) => r == Err::<(), u16>(FORBIDDEN),
            Err(_) => r == Err::<(), u16>(INTERNAL_SERVER_ERROR),
        },
{
    match enforced {
        Ok(true) => Ok(()),
        Ok(false) => Err(FORBIDDEN),
        Err(_) => Err(INTERNAL_SERVER_ERROR),
    }
}

} // verus!
