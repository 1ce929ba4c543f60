//! The users repository.

use vstd::prelude::*;

verus! {

/// The repository of users.
pub struct UserRepo;

} // verus!
