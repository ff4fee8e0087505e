//! Admin session tokens: JSON Web Tokens signed with HS256 over the claims below.

use crate::http::{DbError, Outcome, Status};
use crate::text::{decimal, push_decimal, push_signed_decimal, signed_decimal, string_from_chars};
use crate::time::{checked_add_days, in_chrono_range, utc_now, MAX_TIMESTAMP, SECONDS_PER_DAY};
use jsonwebtoken::{DecodingKey, EncodingKey, Header, Validation};
use serde_json::value::RawValue;
use vstd::prelude::*;

verus! {

broadcast use vstd::string::axiom_spec_iter;

/// The claims that a session token carries.
#[derive(Clone, Copy, Debug, PartialEq, Eq, Structural)]
pub struct AdminClaims {
    /// Expiry, in seconds since the Unix epoch.
    pub exp: usize,
    pub id: i32,
    pub superuser: bool,
    /// The admin's session version when the token was issued; logging out or
    /// changing the password moves it on and so revokes the token.
    pub session_version: i32,
}

/// How long a session token stays valid, in days.
pub const SESSION_DAYS: u64 = 14;

/// Why a token was refused.
#[derive(Clone, Copy, Debug, PartialEq, Eq, Structural)]
pub enum TokenError {
    /// Signed and well formed, but its `exp` lies more than the leeway in the past.
    Expired,
    /// Refused on any other count: malformed, wrongly signed, bad claims.
    Invalid,
}

/// The claims issued at time `now`: they expire `SESSION_DAYS` days later,
/// unless that instant is past the end of the calendar.
pub open spec fn issued_at_spec(now: int, id: i32, superuser: bool, session_version: i32) -> Option<AdminClaims> {
    let exp = now + SECONDS_PER_DAY * SESSION_DAYS;
    if exp <= MAX_TIMESTAMP {
        Some(AdminClaims { exp: exp as usize, id, superuser, session_version })
    } else {
        None
    }
}

/// The JSON text of the claims: one object, keys in declaration order, no
/// whitespace, numbers in decimal.
pub open spec fn claims_json(c: AdminClaims) -> Seq<char> {
    "{\"exp\":"@ + decimal(c.exp as nat) + ",\"id\":"@ + signed_decimal(c.id as int)
        + ",\"superuser\":"@ + (if c.superuser { "true"@ } else { "false"@ })
        + ",\"session_version\":"@ + signed_decimal(c.session_version as int) + "}"@
}

/// Whether `text` is the JSON text of some claims.
pub open spec fn is_claims_json(text: Seq<char>) -> bool {
    exists|c: AdminClaims| text == #[trigger] claims_json(c)
}

/// The token that `jsonwebtoken::encode` makes with the default header (HS256)
/// for the claims text `claims` and the secret `secret`.
pub uninterp spec fn jwt_hs256_encode(claims: Seq<char>, secret: Seq<u8>) -> Seq<char>;

/// The claims text that `jsonwebtoken::decode` yields for `token` under
/// `secret` with the default validation (HS256 only, `exp` required) but its
/// comparison of `exp` with the clock switched off; `None` when it refuses
/// the token.
pub uninterp spec fn jwt_hs256_claims(token: Seq<char>, secret: Seq<u8>) -> Option<Seq<char>>;

/// The base64url header that every token made with `Header::default()`
/// starts with: `{"typ":"JWT","alg":"HS256"}`.
pub open spec fn hs256_header() -> Seq<char> {
    "eyJ0eXAiOiJKV1QiLCJhbGciOiJIUzI1NiJ9"@
}

/// A character of the URL-safe Base64 alphabet (`A-Z a-z 0-9 - _`).
pub open spec fn is_b64url_char(c: char) -> bool {
    ('A' <= c && c <= 'Z') || ('a' <= c && c <= 'z') || ('0' <= c && c <= '9') || c == '-' || c == '_'
}

/// Every character is URL-safe Base64 or a `.` separator.
pub open spec fn is_b64url_segments(s: Seq<char>) -> bool {
    forall|i: int| 0 <= i < s.len() ==> is_b64url_char(#[trigger] s[i]) || s[i] == '.'
}

/// How many `.` separators a string holds.
pub open spec fn dot_count(s: Seq<char>) -> nat {
    s.filter(|c: char| c == '.').len()
}

/// `token` is the session token issued for `claims` under `secret`.
pub open spec fn is_token_for(token: Seq<char>, claims: AdminClaims, secret: Seq<u8>) -> bool {
    &&& token == jwt_hs256_encode(claims_json(claims), secret)
    &&& jwt_hs256_claims(token, secret) == Some(claims_json(claims))
    &&& (hs256_header() + "."@).is_prefix_of(token)
    &&& dot_count(token) == 2
    &&& is_b64url_segments(token)
}

/// What reading a token gives: its verified claims text, or `Invalid`.
pub open spec fn decode_spec(token: Seq<char>, secret: Seq<u8>) -> Result<Seq<char>, TokenError> {
    match jwt_hs256_claims(token, secret) {
        Some(text) => Ok(text),
        None => Err(TokenError::Invalid),
    }
}

/// Seconds of grace after `exp` during which a token is still accepted (the
/// default leeway of `jsonwebtoken::Validation`).
pub const EXPIRY_LEEWAY: i64 = 60;

/// Whether claims have expired at time `now`: `exp` lies more than the leeway
/// before it, the comparison that `jsonwebtoken::Validation` makes.
pub open spec fn expired_at(claims: AdminClaims, now: int) -> bool {
    claims.exp + EXPIRY_LEEWAY < now
}

/// The expiry check at time `now`.
pub open spec fn expiry_spec(claims: AdminClaims, now: int) -> Result<AdminClaims, TokenError> {
    if expired_at(claims, now) {
        Err(TokenError::Expired)
    } else {
        Ok(claims)
    }
}

/// `jsonwebtoken::encode(&Header::default(), claims, &EncodingKey::from_secret(secret))`
/// with the claims text passed through verbatim (`RawValue::from_string`).
/// Claimed: the token is the named encoding; encoding cannot fail for valid
/// JSON under HS256 (neither call has another error path); the token is the
/// base64url default header, the base64url claims and the base64url HMAC,
/// joined by two dots (all three written with `URL_SAFE_NO_PAD`, whose
/// alphabet has no `.`); and decoding it under the same
/// secret gives the claims text back, as the crate's encode/decode pair is
/// built to do (the claims carry a numeric `exp` and no `aud`, `iss`, `sub`).
#[verifier::external_body]
fn jwt_encode(claims: &str, secret: &[u8]) -> (token: String)
    requires
        is_claims_json(claims@),
    ensures
        token@ == jwt_hs256_encode(claims@, secret@),
        jwt_hs256_claims(token@, secret@) == Some(claims@),
        (hs256_header() + "."@).is_prefix_of(token@),
        dot_count(token@) == 2,
        is_b64url_segments(token@),
{
    let raw = RawValue::from_string(claims.to_string()).expect("claims are JSON");
    jsonwebtoken::encode(&Header::default(), &raw, &EncodingKey::from_secret(secret)).expect("HS256 signing does not fail")
}

/// `jsonwebtoken::decode::<Box<RawValue>>(token, &DecodingKey::from_secret(secret), &v)`
/// where `v` is `Validation::default()` with `validate_exp` off (the library
/// compares `exp` with the clock itself, in `check_expiry`), giving the
/// verified claims text. With neither `exp` nor `nbf` validated, `decode`
/// does not read the clock, so the result is the named decoding. Claimed
/// too: a token without exactly two dots is refused (fewer: `InvalidToken`;
/// more: the header part holds a `.`, which is no base64url).
#[verifier::external_body]
fn jwt_decode(token: &str, secret: &[u8]) -> (r: Option<String>)
    ensures
        jwt_hs256_claims(token@, secret@) == match r { Some(s) => Some(s@), None => None::<Seq<char>> },
        dot_count(token@) != 2 ==> r is None,
{
    let mut validation = Validation::default();
    validation.validate_exp = false;
    match jsonwebtoken::decode::<Box<RawValue>>(token, &DecodingKey::from_secret(secret), &validation) {
        Ok(data) => Some(data.claims.get().to_string()),
        Err(_) => None,
    }
}

/// How a request with valid claims fares against the stored session version.
pub open spec fn session_outcome(claims: AdminClaims, stored: Result<i32, DbError>) -> Outcome<AdminClaims> {
    match stored {
        Err(_) => Outcome::Failure(Status::InternalServerError),
        Ok(version) => if version == claims.session_version {
            Outcome::Success(claims)
        } else {
            Outcome::Failure(Status::Unauthorized)
        },
    }
}

fn push_str(out: &mut Vec<char>, s: &str)
    ensures
        final(out)@ == old(out)@ + s@,
{
    let ghost start = out@;
    for c in it: s.chars()
        invariant
            out@ == start + it.seq().take(it.index() as int),
    {
        out.push(c);
    }
}

impl AdminClaims {
    /// The claims of a session that starts now for the given admin.
    /// The clock is read here, so only the shape of the result is stated:
    /// it is what `issued_at` gives for some instant that chrono can hold.
    pub fn new(id: i32, superuser: bool, session_version: i32) -> (r: Option<AdminClaims>)
        ensures
            exists|now: i64| in_chrono_range(now as int) && r == issued_at_spec(now as int, id, superuser, session_version),
    {
        let now = utc_now();
        Self::issued_at(now, id, superuser, session_version)
    }

    /// The claims of a session that starts at `now` for the given admin.
    pub fn issued_at(now: i64, id: i32, superuser: bool, session_version: i32) -> (r: Option<AdminClaims>)
        requires
            in_chrono_range(now as int),
        ensures
            r == issued_at_spec(now as int, id, superuser, session_version),
            r is Some <==> now + 14 * 86400 <= MAX_TIMESTAMP,
            r matches Some(c) ==> c.exp == (now + 14 * 86400) as usize && c.id == id && c.superuser == superuser
                && c.session_version == session_version,
    {
        match checked_add_days(now, SESSION_DAYS) {
            Some(exp) => Some(AdminClaims { exp: exp as usize, id, superuser, session_version }),
            None => None,
        }
    }

    /// The JSON text of the claims, as placed in a token.
    pub fn to_json(&self) -> (s: String)
        ensures
            s@ == claims_json(*self),
    {
        let mut out: Vec<char> = Vec::new();
        push_str(&mut out, "{\"exp\":");
        push_decimal(&mut out, self.exp as u64);
        push_str(&mut out, ",\"id\":");
        push_signed_decimal(&mut out, self.id);
        push_str(&mut out, ",\"superuser\":");
        if self.superuser {
            push_str(&mut out, "true");
        } else {
            push_str(&mut out, "false");
        }
        push_str(&mut out, ",\"session_version\":");
        push_signed_decimal(&mut out, self.session_version);
        push_str(&mut out, "}");
        assert(out@ =~= claims_json(*self));
        string_from_chars(&out)
    }

    /// Signs the claims into a session token.
    pub fn gen_jwt_token(&self, jwt_secret: &[u8]) -> (token: String)
        ensures
            is_token_for(token@, *self, jwt_secret@),
    {
        let claims = self.to_json();
        assert(is_claims_json(claims@));
        jwt_encode(claims.as_str(), jwt_secret)
    }

    /// First step of authenticating a request: the claims read from its `jwt`
    /// header, `None` when the header is missing or its token is refused.
    pub fn require_claims(claims: Option<AdminClaims>) -> (r: Result<AdminClaims, Status>)
        ensures
            r == match claims {
                Some(c) => Ok::<AdminClaims, Status>(c),
                None => Err(Status::Unauthorized),
            },
    {
        match claims {
            Some(c) => Ok(c),
            None => Err(Status::Unauthorized),
        }
    }

    /// Last step of authenticating a request: the token holds only while the
    /// admin's stored session version is still the one it was issued under.
    pub fn check_session(self, stored: Result<i32, DbError>) -> (r: Outcome<AdminClaims>)
        ensures
            r == session_outcome(self, stored),
            stored matches Ok(v) && v == self.session_version ==> r == Outcome::Success(self),
            stored matches Ok(v) && v != self.session_version ==> r == Outcome::<AdminClaims>::Failure(Status::Unauthorized),
            stored is Err ==> r == Outcome::<AdminClaims>::Failure(Status::InternalServerError),
    {
        match stored {
            Err(_) => Outcome::Failure(Status::InternalServerError),
            Ok(version) => {
                if version == self.session_version {
                    Outcome::Success(self)
                } else {
                    Outcome::Failure(Status::Unauthorized)
                }
            },
        }
    }

    /// Checks a token's signature and required claims and gives its claims
    /// text; whether it has expired is decided by `check_expiry` once the
    /// claims are read.
    pub fn decode_token(token: &str, jwt_secret: &[u8]) -> (r: Result<String, TokenError>)
        ensures
            match r { Ok(s) => Ok(s@), Err(e) => Err(e) } == decode_spec(token@, jwt_secret@),
            dot_count(token@) != 2 ==> r == Err::<String, TokenError>(TokenError::Invalid),
    {
        match jwt_decode(token, jwt_secret) {
            Some(text) => Ok(text),
            None => Err(TokenError::Invalid),
        }
    }

    /// The expiry check at time `now` (seconds since the epoch).
    pub fn check_expiry_at(self, now: i64) -> (r: Result<AdminClaims, TokenError>)
        ensures
            r == expiry_spec(self, now as int),
            r is Ok <==> self.exp + 60 >= now,
            r is Ok ==> r == Ok::<AdminClaims, TokenError>(self),
            r is Err ==> r == Err::<AdminClaims, TokenError>(TokenError::Expired),
    {
        if (self.exp as i128) + (EXPIRY_LEEWAY as i128) < (now as i128) {
            Err(TokenError::Expired)
        } else {
            Ok(self)
        }
    }

    /// The expiry check against the current time. The clock is read here,
    /// so only the shape of the result is stated: it is the check at some
    /// instant that chrono can hold.
    pub fn check_expiry(self) -> (r: Result<AdminClaims, TokenError>)
        ensures
            exists|now: i64| in_chrono_range(now as int) && r == expiry_spec(self, now as int),
    {
        let now = utc_now();
        self.check_expiry_at(now)
    }
}

/// A token read back under the secret it was signed with gives exactly the
/// claims it was issued for; they pass the expiry check at any time up to
/// `exp` plus the leeway and fail it afterwards.
pub proof fn lemma_token_round_trip(claims: AdminClaims, secret: Seq<u8>, token: Seq<char>, now: int)
    requires
        is_token_for(token, claims, secret),
    ensures
        decode_spec(token, secret) == Ok::<Seq<char>, TokenError>(claims_json(claims)),
        expiry_spec(claims, now) == Ok::<AdminClaims, TokenError>(claims) <==> now <= claims.exp + EXPIRY_LEEWAY,
        expiry_spec(claims, now) is Err ==> expiry_spec(claims, now) == Err::<AdminClaims, TokenError>(TokenError::Expired),
{
}

/// A token stops working as soon as the stored session version moves on
/// (logout, password change): only the version it was issued under admits it.
pub proof fn lemma_session_revocation(claims: AdminClaims, stored: i32)
    ensures
        session_outcome(claims, Ok(stored)) is Success <==> stored == claims.session_version,
        stored != claims.session_version ==> session_outcome(claims, Ok(stored)) == Outcome::<AdminClaims>::Failure(Status::Unauthorized),
{
}

} // verus!
