//! User accounts.

use vstd::prelude::*;

verus! {

/// The age a newly built account starts with.
pub const DEFAULT_AGE: u32 = 25;

/// A registered user.
#[derive(Debug)]
pub struct User {
    pub username: String,
    pub email: String,
    pub age: u32,
    pub active: bool,
}

/// Builds an active account of the default age from an e-mail address and
/// a user name.
pub fn build_user(email: String, username: String) -> (user: User)
    ensures
        user.username == username,
        user.email == email,
        user.age == DEFAULT_AGE,
        user.active,
{
    User { username, email, age: DEFAULT_AGE, active: true }
}

} // verus!
