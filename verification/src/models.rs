//! The authenticated user a session carries.

use vstd::prelude::*;
use crate::account;

verus! {

/// The user of an authenticated session: id, names and permission bit map.
pub struct User {
    pub sub: u128,
    pub username: String,
    pub email: String,
    pub role: u128,
}

impl User {
    /// The session user for an account row and its role.
    pub fn new(user: account::User, role: u128) -> (u: User)
        ensures
            u.sub == user.id,
            u.username == user.username,
            u.email == user.email,
            u.role == role,
    {
        User { sub: user.id, username: user.username, email: user.email, role }
    }
}

} // verus!
