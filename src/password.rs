use vstd::prelude::*;
use crate::error::ErrorMessage;
use argon2::{PasswordHasher, PasswordVerifier};

verus! {

/// The longest password accepted, in bytes.
pub const MAX_PASSWORD_LENGTH: usize = 64;

/// Whether `password` verifies against the PHC-format Argon2 `digest`, or
/// `None` when `digest` cannot be read as such a string.
pub uninterp spec fn argon2_check(password: Seq<char>, digest: Seq<char>) -> Option<bool>;

/// The length of `password` in bytes, as UTF-8.
pub open spec fn byte_len(password: Seq<char>) -> nat {
    vstd::utf8::encode_utf8(password).len()
}

/// The rule on a password's length that hashing and comparing share.
pub open spec fn password_length_error(password: Seq<char>) -> Option<ErrorMessage> {
    if password.len() == 0 {
        Some(ErrorMessage::EmptyPassword)
    } else if byte_len(password) > MAX_PASSWORD_LENGTH {
        Some(ErrorMessage::ExceededMaxPasswordLength)
    } else {
        None
    }
}

/// What comparing `password` with `digest` gives.
pub open spec fn compare_outcome(password: Seq<char>, digest: Seq<char>) -> Result<bool, ErrorMessage> {
    match password_length_error(password) {
        Some(e) => Err(e),
        None => match argon2_check(password, digest) {
            Some(b) => Ok(b),
            None => Err(ErrorMessage::HashingError),
        },
    }
}

/// The error type of argon2's password-hash API, carried opaque.
#[verifier::external_type_specification]
#[verifier::external_body]
pub struct ExPasswordHashError(argon2::password_hash::Error);

/// How every digest made here starts: the PHC string of Argon2id, version 19,
/// with argon2's default cost parameters.
pub open spec fn phc_prefix() -> Seq<char> {
    "$argon2id$v=19$m=19456,t=2,p=1$"@
}

/// The length of such a digest: the prefix, a 16-byte salt in 22 base64
/// characters, a separator and a 32-byte output in 43.
pub const DIGEST_LENGTH: usize = 97;

/// Relies on argon2's PasswordHasher::hash_password with Argon2::default and a
/// salt from SaltString::generate over OsRng, and on the Display impl of
/// PasswordHash. The salt is random; whatever it is, the PHC string verifies
/// against the same password. argon2 refuses only passwords longer than
/// 2^32 - 1 bytes; with a 16-byte salt and the default output length nothing
/// else fails.
#[verifier::external_body]
fn argon2_hash(password: &str) -> (r: Result<String, argon2::password_hash::Error>)
    ensures
        byte_len(password@) <= u32::MAX ==> r is Ok,
        r matches Ok(d) ==> argon2_check(password@, d@) == Some(true),
        r matches Ok(d) ==> d@.len() == DIGEST_LENGTH && d@.subrange(0, phc_prefix().len() as int) == phc_prefix(),
{
    let salt = argon2::password_hash::SaltString::generate(&mut argon2::password_hash::rand_core::OsRng);
    let digest = argon2::Argon2::default().hash_password(password.as_bytes(), &salt)?;
    Ok(digest.to_string())
}

/// A text has at least as many UTF-8 bytes as characters.
pub proof fn lemma_bytes_at_least_chars(s: Seq<char>)
    ensures
        byte_len(s) >= s.len(),
    decreases s.len(),
{
    if s.len() > 0 {
        lemma_bytes_at_least_chars(s.drop_first());
        assert(vstd::utf8::encode_scalar(s[0] as u32).len() >= 1);
    }
}

/// Relies on argon2's PasswordHash::new, which reads the PHC string, and
/// PasswordVerifier::verify_password with Argon2::default. The cost
/// parameters come from the digest, so digests are taken from the store only.
#[verifier::external_body]
fn argon2_verify(password: &str, digest: &str) -> (r: Option<bool>)
    ensures
        r == argon2_check(password@, digest@),
{
    let parsed = argon2::PasswordHash::new(digest).ok()?;
    Some(argon2::Argon2::default().verify_password(password.as_bytes(), &parsed).is_ok())
}

fn check_length(password: &str) -> (r: Option<ErrorMessage>)
    ensures
        r == password_length_error(password@),
{
    if password.unicode_len() == 0 {
        return Some(ErrorMessage::EmptyPassword);
    }
    if password.as_bytes().len() > MAX_PASSWORD_LENGTH {
        return Some(ErrorMessage::ExceededMaxPasswordLength);
    }
    None
}

/// Hashes `password` with a fresh random salt. The digest differs from call
/// to call; each verifies against the password it was made from, and none
/// equals the password.
pub fn hash(password: &str) -> (r: Result<String, ErrorMessage>)
    ensures
        password_length_error(password@) matches Some(e) ==> r == Err::<String, ErrorMessage>(e),
        password_length_error(password@) is None ==> r is Ok,
        r matches Ok(d) ==> compare_outcome(password@, d@) == Ok::<bool, ErrorMessage>(true),
        r matches Ok(d) ==> d@ != password@,
{
    if let Some(e) = check_length(password) {
        return Err(e);
    }
    proof {
        lemma_bytes_at_least_chars(password@);
    }
    match argon2_hash(password) {
        Ok(d) => Ok(d),
        Err(_) => Err(ErrorMessage::HashingError),
    }
}

/// Whether `password` matches the Argon2 `password_hash`.
pub fn compare(password: &str, password_hash: &str) -> (r: Result<bool, ErrorMessage>)
    ensures
        r == compare_outcome(password@, password_hash@),
{
    if let Some(e) = check_length(password) {
        return Err(e);
    }
    match argon2_verify(password, password_hash) {
        Some(b) => Ok(b),
        None => Err(ErrorMessage::HashingError),
    }
}

} // verus!
