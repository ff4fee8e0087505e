//! Server configuration and the start-up decisions made with it.

use crate::http::DbError;
use vstd::prelude::*;

verus! {

/// Settings read from the environment at start-up.
#[derive(Debug)]
pub struct Config {
    /// Key of the HS256 signatures on session tokens.
    pub jwt_secret: String,
    pub db_url: String,
    /// Password of the `superuser` account made on first start.
    pub superuser_pwd: String,
}

/// A setting that the environment lacks.
#[derive(Clone, Copy, Debug, PartialEq, Eq, Structural)]
pub enum MissingVar {
    JwtSecret,
    DatabaseUrl,
    SuperuserPwd,
}

/// The username of the account made on first start.
pub const SUPERUSER_NAME: &'static str = "superuser";

/// What start-up does about the superuser account, once it has been looked up.
#[derive(Clone, Copy, Debug, PartialEq, Eq, Structural)]
pub enum SuperuserSetup {
    /// It exists: nothing to do.
    Present,
    /// It does not exist yet: create it, with the configured password.
    Create,
    /// The lookup failed: start-up fails.
    Abort,
}

impl MissingVar {
    /// The environment variable that holds the setting.
    pub fn var_name(&self) -> (name: &'static str)
        ensures
            name@ == match *self {
                MissingVar::JwtSecret => "JWT_SECRET"@,
                MissingVar::DatabaseUrl => "DATABASE_URL"@,
                MissingVar::SuperuserPwd => "SUPERUSER_PWD"@,
            },
    {
        match self {
            MissingVar::JwtSecret => "JWT_SECRET",
            MissingVar::DatabaseUrl => "DATABASE_URL",
            MissingVar::SuperuserPwd => "SUPERUSER_PWD",
        }
    }
}

impl Config {
    /// The configuration from the values of `JWT_SECRET`, `DATABASE_URL` and
    /// `SUPERUSER_PWD`; the first one missing, in that order, is reported.
    pub fn from_vars(
        jwt_secret: Option<String>,
        db_url: Option<String>,
        superuser_pwd: Option<String>,
    ) -> (r: Result<Config, MissingVar>)
        ensures
            r == match (jwt_secret, db_url, superuser_pwd) {
                (Some(j), Some(d), Some(s)) => Ok::<Config, MissingVar>(
                    Config { jwt_secret: j, db_url: d, superuser_pwd: s },
                ),
                (None, _, _) => Err(MissingVar::JwtSecret),
                (Some(_), None, _) => Err(MissingVar::DatabaseUrl),
                (Some(_), Some(_), None) => Err(MissingVar::SuperuserPwd),
            },
    {
        let j = match jwt_secret {
            Some(j) => j,
            None => return Err(MissingVar::JwtSecret),
        };
        let d = match db_url {
            Some(d) => d,
            None => return Err(MissingVar::DatabaseUrl),
        };
        let s = match superuser_pwd {
            Some(s) => s,
            None => return Err(MissingVar::SuperuserPwd),
        };
        Ok(Config { jwt_secret: j, db_url: d, superuser_pwd: s })
    }
}

/// Decides what to do about the superuser account from its lookup by name.
pub fn superuser_setup<T>(lookup: &Result<T, DbError>) -> (s: SuperuserSetup)
    ensures
        s == match lookup {
            Ok(_) => SuperuserSetup::Present,
            Err(DbError::RowNotFound) => SuperuserSetup::Create,
            Err(DbError::Other) => SuperuserSetup::Abort,
        },
{
    match lookup {
        Ok(_) => SuperuserSetup::Present,
        Err(DbError::RowNotFound) => SuperuserSetup::Create,
        Err(DbError::Other) => SuperuserSetup::Abort,
    }
}

} // verus!
