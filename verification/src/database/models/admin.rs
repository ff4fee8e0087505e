//! Admin accounts.

use vstd::prelude::*;

verus! {

/// An admin account. The password hash and the session version never leave
/// the server.
#[derive(Debug)]
pub struct Admin {
    pub id: i32,
    pub username: String,
    /// PHC string of the admin's password.
    pub password_hash: String,
    /// Moves on when the admin logs out or changes the password; tokens
    /// issued under an older version are refused.
    pub session_version: i32,
    pub superuser: bool,
}

} // verus!
