//! Routes for admin accounts: login, password change, account creation.

use crate::auth::admin_jwt::{is_token_for, issued_at_spec, AdminClaims};
use crate::auth::admin_login::AdminLoginGuard;
use crate::auth::pwd::{hashable, is_hash_of, new_password};
use crate::http::Status;
use crate::time::in_chrono_range;
use vstd::prelude::*;

verus! {

/// The form of a password change.
#[derive(Debug)]
pub struct EditAdminPassword {
    pub new_password: String,
}

/// The form that creates an admin account.
#[derive(Debug)]
pub struct CreateAdmin {
    pub username: String,
    pub password: String,
    pub superuser: bool,
}

/// The session token handed out at login, for a session starting at `now`.
pub open spec fn login_token_ok(user: AdminLoginGuard, secret: Seq<u8>, now: int, r: Option<String>) -> bool {
    match issued_at_spec(now, user.0.id, user.0.superuser, user.0.session_version) {
        None => r is None,
        Some(c) => r matches Some(t) && is_token_for(t@, c, secret),
    }
}

/// Logs an admin in: a token over the admin's id, rank and current session
/// version, valid for `SESSION_DAYS` days from now. `None` only when that
/// expiry lies past the end of the calendar.
pub fn login(user: &AdminLoginGuard, jwt_secret: &[u8]) -> (r: Option<String>)
    ensures
        exists|now: i64| in_chrono_range(now as int) && login_token_ok(*user, jwt_secret@, now as int, r),
{
    let claims = AdminClaims::new(user.0.id, user.0.superuser, user.0.session_version);
    let ghost now = choose|now: i64|
        in_chrono_range(now as int) && claims == issued_at_spec(now as int, user.0.id, user.0.superuser, user.0.session_version);
    let r = match claims {
        Some(c) => Some(c.gen_jwt_token(jwt_secret)),
        None => None,
    };
    assert(login_token_ok(*user, jwt_secret@, now as int, r));
    r
}

impl EditAdminPassword {
    /// The hash to store for the new password.
    pub fn new_hash(&self) -> (r: Result<String, Status>)
        ensures
            r is Ok <==> hashable(self.new_password@),
            r matches Ok(h) ==> is_hash_of(h@, self.new_password@),
            r matches Err(s) ==> s == Status::InternalServerError,
    {
        match new_password(self.new_password.as_str()) {
            Ok(h) => Ok(h),
            Err(_) => Err(Status::InternalServerError),
        }
    }
}

impl CreateAdmin {
    /// Only a superuser may create a superuser; otherwise the hash to store
    /// for the new account's password.
    pub fn authorize(&self, creator: &AdminLoginGuard) -> (r: Result<String, Status>)
        ensures
            self.superuser && !creator.0.superuser ==> r == Err::<String, Status>(Status::Forbidden),
            !(self.superuser && !creator.0.superuser) ==> (r is Ok <==> hashable(self.password@)),
            r matches Ok(h) ==> is_hash_of(h@, self.password@),
            r matches Err(s) ==> (s == Status::Forbidden <==> (self.superuser && !creator.0.superuser)),
            r matches Err(s) ==> s == Status::Forbidden || s == Status::InternalServerError,
    {
        if self.superuser && !creator.0.superuser {
            return Err(Status::Forbidden);
        }
        match new_password(self.password.as_str()) {
            Ok(h) => Ok(h),
            Err(_) => Err(Status::InternalServerError),
        }
    }
}

} // verus!
