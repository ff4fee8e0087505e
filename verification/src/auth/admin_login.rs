//! Logging in with a username and a password.

use crate::auth::pwd::{argon2_verifies, is_hash_of, password_check, phc_string_parses, verify_password};
use crate::database::models::admin::Admin;
use crate::http::{DbError, Outcome, Status};
use vstd::prelude::*;

verus! {

/// Proof that the request came from the admin it names, by password.
#[derive(Debug)]
pub struct AdminLoginGuard(pub Admin);

/// How a login attempt with `password` fares against the stored account.
pub open spec fn login_outcome(admin: Admin, password: Seq<char>) -> Outcome<AdminLoginGuard> {
    match password_check(password, admin.password_hash@) {
        None => Outcome::Failure(Status::InternalServerError),
        Some(false) => Outcome::Failure(Status::Unauthorized),
        Some(true) => Outcome::Success(AdminLoginGuard(admin)),
    }
}

impl AdminLoginGuard {
    /// First step: both the `username` and the `password` header must be there.
    pub fn credentials(username: Option<String>, password: Option<String>) -> (r: Result<(String, String), Status>)
        ensures
            r == match (username, password) {
                (Some(u), Some(p)) => Ok::<(String, String), Status>((u, p)),
                _ => Err(Status::BadRequest),
            },
    {
        match (username, password) {
            (Some(u), Some(p)) => Ok((u, p)),
            _ => Err(Status::BadRequest),
        }
    }

    /// Second step: the account looked up by username. An unknown username is
    /// refused like a wrong password; any other database failure is a server error.
    pub fn lookup(found: Result<Admin, DbError>) -> (r: Result<Admin, Status>)
        ensures
            r == match found {
                Ok(a) => Ok::<Admin, Status>(a),
                Err(DbError::RowNotFound) => Err(Status::Unauthorized),
                Err(DbError::Other) => Err(Status::InternalServerError),
            },
    {
        match found {
            Ok(a) => Ok(a),
            Err(DbError::RowNotFound) => Err(Status::Unauthorized),
            Err(DbError::Other) => Err(Status::InternalServerError),
        }
    }

    /// Last step: the password is checked against the stored hash.
    pub fn check_password(admin: Admin, password: &str) -> (r: Outcome<AdminLoginGuard>)
        ensures
            r == login_outcome(admin, password@),
            (phc_string_parses(admin.password_hash@) && argon2_verifies(admin.password_hash@, password@))
                ==> r == Outcome::Success(AdminLoginGuard(admin)),
            (phc_string_parses(admin.password_hash@) && !argon2_verifies(admin.password_hash@, password@))
                ==> r == Outcome::<AdminLoginGuard>::Failure(Status::Unauthorized),
            !phc_string_parses(admin.password_hash@) ==> r == Outcome::<AdminLoginGuard>::Failure(
                Status::InternalServerError,
            ),
    {
        match verify_password(password, admin.password_hash.as_str()) {
            Err(_) => Outcome::Failure(Status::InternalServerError),
            Ok(false) => Outcome::Failure(Status::Unauthorized),
            Ok(true) => Outcome::Success(AdminLoginGuard(admin)),
        }
    }
}

/// A login succeeds exactly when Argon2 accepts the given password against
/// the stored hash; a password it refuses is `Unauthorized`, a stored hash
/// that does not parse a server error.
pub proof fn lemma_login_is_argon2(admin: Admin, password: Seq<char>)
    ensures
        login_outcome(admin, password) is Success <==> (phc_string_parses(admin.password_hash@)
            && argon2_verifies(admin.password_hash@, password)),
        login_outcome(admin, password) is Success ==> login_outcome(admin, password)
            == Outcome::Success(AdminLoginGuard(admin)),
        (phc_string_parses(admin.password_hash@) && !argon2_verifies(admin.password_hash@, password))
            ==> login_outcome(admin, password) == Outcome::<AdminLoginGuard>::Failure(Status::Unauthorized),
        !phc_string_parses(admin.password_hash@) ==> login_outcome(admin, password)
            == Outcome::<AdminLoginGuard>::Failure(Status::InternalServerError),
{
}

/// An admin whose stored hash was made from `password` logs in with it.
pub proof fn lemma_login_with_own_password(admin: Admin, password: Seq<char>)
    requires
        is_hash_of(admin.password_hash@, password),
    ensures
        login_outcome(admin, password) == Outcome::<AdminLoginGuard>::Success(AdminLoginGuard(admin)),
{
}

} // verus!
