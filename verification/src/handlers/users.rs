//! The bare user-creation endpoint.

use vstd::prelude::*;

verus! {

/// The input of the creation endpoint.
#[derive(Debug)]
pub struct CreateUser {
    pub username: String,
}

/// The output of the creation endpoint.
#[derive(Debug)]
pub struct User {
    pub id: i32,
    pub username: String,
}

/// The reply for a user stored under `id`.
pub fn created_user(id: i32, username: String) -> (u: User)
    ensures
        u.id == id && u.username == username,
{
    User { id, username }
}

} // verus!
