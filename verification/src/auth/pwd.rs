//! Argon2 password hashes in the PHC string format.

use argon2::password_hash::rand_core::OsRng;
use argon2::password_hash::Error as HashError;
use argon2::password_hash::PasswordHash;
use argon2::password_hash::PasswordHasher;
use argon2::password_hash::PasswordVerifier;
use argon2::password_hash::Salt;
use argon2::password_hash::SaltString;
use argon2::Argon2;
use vstd::prelude::*;
use vstd::utf8::encode_utf8;

verus! {

/// The error type of the `password-hash` crate, carried opaquely.
#[verifier::external_type_specification]
#[verifier::external_body]
pub struct ExHashError(HashError);


/// Whether `PasswordHash::new` accepts `hash` as a PHC string.
pub uninterp spec fn phc_string_parses(hash: Seq<char>) -> bool;

/// Whether the default Argon2 instance accepts the UTF-8 bytes of `password`
/// against the PHC string `hash` (`PasswordVerifier::verify_password` is `Ok`).
pub uninterp spec fn argon2_verifies(hash: Seq<char>, password: Seq<char>) -> bool;

/// `hash` is a PHC string that the default Argon2 instance accepts `password` against.
pub open spec fn is_hash_of(hash: Seq<char>, password: Seq<char>) -> bool {
    phc_string_parses(hash) && argon2_verifies(hash, password)
}

/// What checking `password` against the stored `hash` gives: `None` when the
/// hash is no PHC string, else whether the password matches.
pub open spec fn password_check(password: Seq<char>, hash: Seq<char>) -> Option<bool> {
    if phc_string_parses(hash) {
        Some(argon2_verifies(hash, password))
    } else {
        None
    }
}

/// The longest password, in UTF-8 bytes, that Argon2 hashes.
pub const MAX_PASSWORD_BYTES: u64 = 0xFFFF_FFFF;

/// Whether Argon2 takes `password`: its UTF-8 encoding is at most
/// `MAX_PASSWORD_BYTES` long.
pub open spec fn hashable(password: Seq<char>) -> bool {
    encode_utf8(password).len() <= MAX_PASSWORD_BYTES
}

/// How every PHC string of the default Argon2 instance begins, for a given
/// salt: Argon2id, version 19, the default costs (19 MiB, 2 passes, 1 lane),
/// then the salt.
pub open spec fn phc_prefix(salt: Seq<char>) -> Seq<char> {
    "$argon2id$v=19$m=19456,t=2,p=1$"@ + salt + "$"@
}

/// A string that cannot be a PHC string: empty, or not starting with `$`.
pub open spec fn not_phc_shaped(hash: Seq<char>) -> bool {
    hash.len() == 0 || hash[0] != '$'
}

/// A character of the standard Base64 alphabet (`A-Z a-z 0-9 + /`).
pub open spec fn is_b64_char(c: char) -> bool {
    ('A' <= c && c <= 'Z') || ('a' <= c && c <= 'z') || ('0' <= c && c <= '9') || c == '+' || c == '/'
}

/// The unpadded standard Base64 spelling of some 16 bytes: 22 characters of
/// the alphabet, the last carrying two bits of data and four zero bits.
pub open spec fn is_b64_salt(s: Seq<char>) -> bool {
    &&& s.len() == 22
    &&& forall|i: int| 0 <= i < s.len() ==> is_b64_char(#[trigger] s[i])
    &&& (s[21] == 'A' || s[21] == 'Q' || s[21] == 'g' || s[21] == 'w')
}

/// Why hashing or checking a password failed, in the words of the hashing crate.
#[derive(Debug)]
pub struct PasswordError {
    pub message: String,
}

/// `SaltString::generate` over the operating system's random source, as its
/// B64 text (`as_str`). The bytes are random; claimed is only what holds of
/// every outcome: `generate` B64-encodes 16 bytes (`Salt::RECOMMENDED_LENGTH`)
/// with the standard unpadded alphabet.
#[verifier::external_body]
fn gen_salt() -> (salt: String)
    ensures
        is_b64_salt(salt@),
{
    SaltString::generate(&mut OsRng).as_str().to_string()
}

/// `Argon2::default().hash_password(pwd, salt)` with the salt taken from its
/// B64 text (`Salt::from_b64`), serialised as a PHC string.
/// Claimed: a string it returns parses as a PHC string and the default Argon2
/// instance accepts `pwd` against it (the round trip that the argon2 crate
/// documents). For a salt that spells 16 bytes in B64, hashing fails exactly
/// when the password is longer than `MAX_PWD_LEN` bytes: the salt passes
/// `Salt::from_b64`, decodes into the 64-byte buffer and meets `MIN_SALT_LEN`,
/// and the default parameters and output length pass every other check of
/// `hash_password` and `hash_password_into`. The string is the PHC form of
/// the hash (`Display` of `PasswordHash`): `$argon2id$v=19$`, the default
/// parameters, the salt, then the hash. Not claimed: the hash bytes.
#[verifier::external_body]
fn gen_hash(pwd: &str, salt: &str) -> (res: Result<String, HashError>)
    ensures
        res matches Ok(h) ==> is_hash_of(h@, pwd@) && phc_prefix(salt@).is_prefix_of(h@),
        is_b64_salt(salt@) ==> (res is Ok <==> hashable(pwd@)),
{
    let salt = match Salt::from_b64(salt) {
        Ok(s) => s,
        Err(e) => return Err(e),
    };
    match Argon2::default().hash_password(pwd.as_bytes(), salt) {
        Ok(h) => Ok(h.serialize().to_string()),
        Err(e) => Err(e),
    }
}

/// `PasswordHash::new(hash)`, and on success
/// `Argon2::default().verify_password(pwd, &parsed).is_ok()`.
/// Claimed: the result is `Ok` exactly when the hash parses, and then it is
/// whether Argon2 accepts the password; both are named, not spelled out. An
/// empty string, or one whose first field (before the first `$`) is not
/// empty, is refused by `PasswordHash::parse`.
#[verifier::external_body]
fn verify_pwd(hash: &str, pwd: &str) -> (res: Result<bool, HashError>)
    ensures
        res is Ok <==> phc_string_parses(hash@),
        res matches Ok(ok) ==> ok == argon2_verifies(hash@, pwd@),
        not_phc_shaped(hash@) ==> res is Err,
{
    match PasswordHash::new(hash) {
        Ok(parsed) => Ok(Argon2::default().verify_password(pwd.as_bytes(), &parsed).is_ok()),
        Err(e) => Err(e),
    }
}

/// `ToString::to_string` of a hashing error.
#[verifier::external_body]
fn error_message(e: &HashError) -> String {
    e.to_string()
}

fn new_pwd(pwd: &str) -> (res: Result<String, HashError>)
    ensures
        res is Ok <==> hashable(pwd@),
        res matches Ok(h) ==> is_hash_of(h@, pwd@),
        res matches Ok(h) ==> exists|salt: Seq<char>| is_b64_salt(salt) && #[trigger] phc_prefix(salt).is_prefix_of(h@),
{
    let salt = gen_salt();
    gen_hash(pwd, salt.as_str())
}

/// Generate the hash for a new password.
/// It fails only for a password longer than `MAX_PASSWORD_BYTES` bytes.
pub fn new_password(password: &str) -> (res: Result<String, PasswordError>)
    ensures
        res is Ok <==> hashable(password@),
        res matches Ok(h) ==> is_hash_of(h@, password@),
        res matches Ok(h) ==> exists|salt: Seq<char>| is_b64_salt(salt) && #[trigger] phc_prefix(salt).is_prefix_of(h@),
{
    match new_pwd(password) {
        Ok(h) => Ok(h),
        Err(e) => Err(PasswordError { message: error_message(&e) }),
    }
}

/// Verify that a password is correct.
pub fn verify_password(password: &str, hash: &str) -> (res: Result<bool, PasswordError>)
    ensures
        res is Ok <==> password_check(password@, hash@) is Some,
        res matches Ok(ok) ==> password_check(password@, hash@) == Some(ok),
        not_phc_shaped(hash@) ==> res is Err,
        res is Ok <==> phc_string_parses(hash@),
        res matches Ok(ok) ==> ok == argon2_verifies(hash@, password@),
{
    match verify_pwd(hash, password) {
        Ok(ok) => Ok(ok),
        Err(e) => Err(PasswordError { message: error_message(&e) }),
    }
}

/// Checking a password against a stored hash answers exactly what Argon2
/// answers: `Some(true)` only for a password Argon2 accepts against a hash
/// that parses, `Some(false)` for one it refuses, `None` for a hash that does
/// not parse. No password (the empty one included) is let in otherwise.
pub proof fn lemma_check_is_argon2(password: Seq<char>, hash: Seq<char>)
    ensures
        password_check(password, hash) == Some(true) <==> (phc_string_parses(hash) && argon2_verifies(
            hash,
            password,
        )),
        password_check(password, hash) == Some(false) <==> (phc_string_parses(hash) && !argon2_verifies(
            hash,
            password,
        )),
        password_check(password, hash) is None <==> !phc_string_parses(hash),
{
}

/// A password is accepted against every hash that was made of it.
pub proof fn lemma_new_password_verifies(password: Seq<char>, hash: Seq<char>)
    requires
        is_hash_of(hash, password),
    ensures
        password_check(password, hash) == Some(true),
{
}

} // verus!
