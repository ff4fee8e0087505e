//! Access to a conference: viewing it, by admin token or by its password
//! (a private one, without password, only by admins with access to it), and
//! managing it, by the token of one of its admins alone.

use crate::auth::admin_jwt::AdminClaims;
use crate::database::models::conference::Conference;
use crate::http::{DbError, Outcome, Status};
use crate::text::{contains_id, lemma_parse_signed_decimal, parse_i32, parse_i32_spec, signed_decimal, str_eq};
use vstd::prelude::*;

verus! {

/// How the request's admin token fared.
#[derive(Debug)]
pub enum AdminClaimsResult {
    Authenticated(AdminClaims),
    Refused(Status),
}

/// A conference together with the admin allowed to manage it.
#[derive(Debug)]
pub struct ConferenceManageGuard {
    pub conference: Conference,
    pub admin: AdminClaims,
}

/// A conference that the request may see.
#[derive(Debug)]
pub struct ConferenceViewGuard(pub Conference);

/// The view of an optional string.
pub open spec fn opt_view(s: Option<&str>) -> Option<Seq<char>> {
    match s {
        Some(t) => Some(t@),
        None => None,
    }
}

/// The `conference-password` header admits the request when it is there and
/// equals the conference's password; a conference without one admits nobody.
pub open spec fn password_admits(given: Option<Seq<char>>, password: Option<String>) -> bool {
    match (given, password) {
        (Some(g), Some(p)) => g == p@,
        _ => false,
    }
}

/// The conference id of a request, from its `conference-id` header.
pub open spec fn conference_id_spec(header: Option<Seq<char>>) -> Result<i32, Status> {
    match header {
        None => Err(Status::BadRequest),
        Some(h) => match parse_i32_spec(h) {
            Some(id) => Ok(id),
            None => Err(Status::BadRequest),
        },
    }
}

/// Access to a found conference, given how the admin token fared and the
/// `conference-password` header.
pub open spec fn access_spec(
    conf: Conference,
    admin: Outcome<AdminClaims>,
    given: Option<Seq<char>>,
) -> Result<(Conference, AdminClaimsResult), Status> {
    match admin {
        Outcome::Success(a) => Ok((conf, AdminClaimsResult::Authenticated(a))),
        Outcome::Failure(s) => if password_admits(given, conf.password) {
            Ok((conf, AdminClaimsResult::Refused(s)))
        } else {
            Err(s)
        },
    }
}

/// The management outcome: only an authenticated admin listed among the
/// conference's admins may manage it.
pub open spec fn manage_spec(access: Result<(Conference, AdminClaimsResult), Status>) -> Outcome<ConferenceManageGuard> {
    match access {
        Ok((conference, AdminClaimsResult::Authenticated(admin))) => if conference.admins@.contains(admin.id) {
            Outcome::Success(ConferenceManageGuard { conference, admin })
        } else {
            Outcome::Failure(Status::Forbidden)
        },
        Ok((_, AdminClaimsResult::Refused(s))) => Outcome::Failure(s),
        Err(s) => Outcome::Failure(s),
    }
}

/// The viewing outcome: whoever got access may view, except that a private
/// conference (one without a password) is shown only to admins with access
/// to it; another authenticated admin is refused with `Forbidden`.
pub open spec fn view_spec(access: Result<(Conference, AdminClaimsResult), Status>) -> Outcome<ConferenceViewGuard> {
    match access {
        Ok((conf, AdminClaimsResult::Authenticated(admin))) => if conf.password is Some || has_access(
            conf,
            admin,
        ) {
            Outcome::Success(ConferenceViewGuard(conf))
        } else {
            Outcome::Failure(Status::Forbidden)
        },
        Ok((conf, AdminClaimsResult::Refused(_))) => Outcome::Success(ConferenceViewGuard(conf)),
        Err(s) => Outcome::Failure(s),
    }
}

/// An admin with access to a conference: a superuser, or one of its admins.
pub open spec fn has_access(conf: Conference, admin: AdminClaims) -> bool {
    admin.superuser || conf.admins@.contains(admin.id)
}

/// First step: the `conference-id` header must hold a decimal `i32`.
pub fn parse_conference_id(header: Option<&str>) -> (r: Result<i32, Status>)
    ensures
        r == conference_id_spec(opt_view(header)),
{
    match header {
        None => Err(Status::BadRequest),
        Some(h) => match parse_i32(h) {
            Some(id) => Ok(id),
            None => Err(Status::BadRequest),
        },
    }
}

/// Second step: the conference looked up by id.
pub fn conference_lookup(found: Result<Conference, DbError>) -> (r: Result<Conference, Status>)
    ensures
        r == match found {
            Ok(c) => Ok::<Conference, Status>(c),
            Err(DbError::RowNotFound) => Err(Status::NotFound),
            Err(DbError::Other) => Err(Status::InternalServerError),
        },
{
    match found {
        Ok(c) => Ok(c),
        Err(DbError::RowNotFound) => Err(Status::NotFound),
        Err(DbError::Other) => Err(Status::InternalServerError),
    }
}

/// Last step: an authenticated admin gets access; otherwise the conference
/// password may still admit the request, keeping the token's refusal on record.
pub fn conference_access(
    conf: Conference,
    admin: Outcome<AdminClaims>,
    password: Option<&str>,
) -> (r: Result<(Conference, AdminClaimsResult), Status>)
    ensures
        r == access_spec(conf, admin, opt_view(password)),
        admin matches Outcome::Success(a) ==> r == Ok::<(Conference, AdminClaimsResult), Status>(
            (conf, AdminClaimsResult::Authenticated(a)),
        ),
        admin matches Outcome::Failure(s) ==> (r is Ok <==> (match (password, conf.password) {
            (Some(g), Some(p)) => g@ == p@,
            _ => false,
        })),
        admin matches Outcome::Failure(s) ==> (r is Ok ==> r == Ok::<(Conference, AdminClaimsResult), Status>(
            (conf, AdminClaimsResult::Refused(s)),
        )),
        admin matches Outcome::Failure(s) ==> (r is Err ==> r == Err::<(Conference, AdminClaimsResult), Status>(s)),
{
    match admin {
        Outcome::Success(a) => Ok((conf, AdminClaimsResult::Authenticated(a))),
        Outcome::Failure(s) => {
            let admits = match (password, &conf.password) {
                (Some(g), Some(p)) => str_eq(g, p.as_str()),
                _ => false,
            };
            if admits {
                Ok((conf, AdminClaimsResult::Refused(s)))
            } else {
                Err(s)
            }
        },
    }
}

impl ConferenceManageGuard {
    /// Decides management rights from the outcome of `conference_access`.
    pub fn from_access(access: Result<(Conference, AdminClaimsResult), Status>) -> (r: Outcome<ConferenceManageGuard>)
        ensures
            r == manage_spec(access),
            access matches Ok((c, AdminClaimsResult::Authenticated(a))) ==> r == (if c.admins@.contains(a.id) {
                Outcome::Success(ConferenceManageGuard { conference: c, admin: a })
            } else {
                Outcome::Failure(Status::Forbidden)
            }),
            access matches Ok((_, AdminClaimsResult::Refused(s))) ==> r == Outcome::<ConferenceManageGuard>::Failure(s),
            access matches Err(s) ==> r == Outcome::<ConferenceManageGuard>::Failure(s),
    {
        match access {
            Ok((conference, AdminClaimsResult::Authenticated(admin))) => {
                if contains_id(&conference.admins, admin.id) {
                    Outcome::Success(ConferenceManageGuard { conference, admin })
                } else {
                    Outcome::Failure(Status::Forbidden)
                }
            },
            Ok((_, AdminClaimsResult::Refused(s))) => Outcome::Failure(s),
            Err(s) => Outcome::Failure(s),
        }
    }
}

impl ConferenceViewGuard {
    /// Decides viewing rights from the outcome of `conference_access`.
    pub fn from_access(access: Result<(Conference, AdminClaimsResult), Status>) -> (r: Outcome<ConferenceViewGuard>)
        ensures
            r == view_spec(access),
            access matches Ok((c, AdminClaimsResult::Refused(_))) ==> r == Outcome::Success(ConferenceViewGuard(c)),
            access matches Ok((c, AdminClaimsResult::Authenticated(a))) ==> r == (if c.password is Some
                || a.superuser || c.admins@.contains(a.id) {
                Outcome::Success(ConferenceViewGuard(c))
            } else {
                Outcome::Failure(Status::Forbidden)
            }),
            access matches Err(s) ==> r == Outcome::<ConferenceViewGuard>::Failure(s),
    {
        match access {
            Ok((conf, AdminClaimsResult::Authenticated(admin))) => {
                if conf.password.is_some() || admin.superuser || contains_id(&conf.admins, admin.id) {
                    Outcome::Success(ConferenceViewGuard(conf))
                } else {
                    Outcome::Failure(Status::Forbidden)
                }
            },
            Ok((conf, AdminClaimsResult::Refused(_))) => Outcome::Success(ConferenceViewGuard(conf)),
            Err(s) => Outcome::Failure(s),
        }
    }
}

/// The `conference-id` header that spells a conference's id in decimal
/// names that conference.
pub proof fn lemma_conference_id_round_trip(id: i32)
    ensures
        conference_id_spec(Some(signed_decimal(id as int))) == Ok::<i32, Status>(id),
{
    lemma_parse_signed_decimal(id);
}

/// A visitor whose token was refused is let in by the conference password
/// exactly when the `conference-password` header is there and equal,
/// character for character, to the conference's password; otherwise the
/// token's refusal is the answer. A wrong password, a prefix of the right
/// one included, never admits.
pub proof fn lemma_password_admits_exactly(conf: Conference, s: Status, given: Option<Seq<char>>)
    ensures
        access_spec(conf, Outcome::Failure(s), given) is Ok <==> (given is Some && conf.password is Some
            && given->0 == conf.password->0@),
        access_spec(conf, Outcome::Failure(s), given) is Err ==> access_spec(conf, Outcome::Failure(s), given)
            == Err::<(Conference, AdminClaimsResult), Status>(s),
        (given matches Some(g) && conf.password matches Some(p) && g != p@) ==> access_spec(
            conf,
            Outcome::Failure(s),
            given,
        ) == Err::<(Conference, AdminClaimsResult), Status>(s),
{
}

/// An authenticated admin listed among a conference's admins may manage it,
/// whether or not a superuser and whatever password header came along; an
/// authenticated admin who is not listed is refused with `Forbidden`.
pub proof fn lemma_listed_admin_manages(conf: Conference, admin: AdminClaims, given: Option<Seq<char>>)
    ensures
        conf.admins@.contains(admin.id) ==> manage_spec(access_spec(conf, Outcome::Success(admin), given))
            == Outcome::Success(ConferenceManageGuard { conference: conf, admin }),
        !conf.admins@.contains(admin.id) ==> manage_spec(access_spec(conf, Outcome::Success(admin), given))
            == Outcome::<ConferenceManageGuard>::Failure(Status::Forbidden),
{
}

/// Managing a conference takes an authenticated admin who is one of its
/// admins; the conference password never grants it, and a refused token's
/// status is what the request is answered with.
pub proof fn lemma_manage_needs_listed_admin(
    conf: Conference,
    admin: Outcome<AdminClaims>,
    given: Option<Seq<char>>,
)
    ensures
        manage_spec(access_spec(conf, admin, given)) is Success ==> (admin is Success
            && conf.admins@.contains(admin->Success_0.id)),
        admin matches Outcome::Failure(s) ==> manage_spec(access_spec(conf, admin, given))
            == Outcome::<ConferenceManageGuard>::Failure(s),
{
}

/// A conference with a password may be viewed exactly by an authenticated
/// admin or with its password; one without a password only by an
/// authenticated admin with access to it (a superuser or one of its admins).
pub proof fn lemma_view_access(
    conf: Conference,
    admin: Outcome<AdminClaims>,
    given: Option<Seq<char>>,
)
    ensures
        conf.password is Some ==> (view_spec(access_spec(conf, admin, given)) is Success <==> (
        admin is Success || password_admits(given, conf.password))),
        conf.password is None ==> (view_spec(access_spec(conf, admin, given)) is Success <==> (
        admin is Success && has_access(conf, admin->Success_0))),
{
}

} // verus!
