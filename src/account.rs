use vstd::prelude::*;
use crate::auth::auth_subject;
use crate::dtos::{LoginUserDto, RegisterUserDto, UserPassUpdateDto};
use crate::error::{ErrorKind, ErrorMessage, HttpError};
use crate::ids::{uuid_text, uuid_to_string};
use crate::models::{StoreError, User};
use crate::password::{compare, compare_outcome, hash, password_length_error};
use crate::token::{create_token_at, expiry_of, jwt_claims, lifetime_ok, validated_subject};

verus! {

/// The name of the cookie that carries the token.
pub const TOKEN_COOKIE: &'static str = "token";

/// How long an e-mail verification token stays valid, in microseconds.
pub const VERIFICATION_WINDOW_MICROS: i64 = 86_400_000_000;

/// The path the token cookie is sent for: the whole site.
pub const TOKEN_COOKIE_PATH: &'static str = "/";

pub open spec fn decimal_digit(d: int) -> char {
    seq!['0', '1', '2', '3', '4', '5', '6', '7', '8', '9'][d]
}

/// The decimal digits of `n`, most significant first.
pub open spec fn decimal(n: nat) -> Seq<char>
    decreases n,
{
    if n < 10 {
        seq![decimal_digit(n as int)]
    } else {
        decimal(n / 10).push(decimal_digit((n % 10) as int))
    }
}

/// An integer written as Rust's Display writes it.
pub open spec fn int_text(n: int) -> Seq<char> {
    if n < 0 {
        seq!['-'] + decimal((-n) as nat)
    } else {
        decimal(n as nat)
    }
}

/// What a `Set-Cookie` value starts with: `name=value`.
pub open spec fn cookie_head(name: Seq<char>, value: Seq<char>) -> Seq<char> {
    name + seq!['='] + value
}

/// The `Set-Cookie` value of a cookie with the given name, value, path,
/// max-age and HttpOnly flag, and no other attribute.
pub open spec fn cookie_text(
    name: Seq<char>,
    value: Seq<char>,
    path: Seq<char>,
    max_age_seconds: i64,
    http_only: bool,
) -> Seq<char> {
    cookie_head(name, value) + (if http_only {
        "; HttpOnly"@
    } else {
        Seq::empty()
    }) + "; Path="@ + path + "; Max-Age="@ + int_text(max_age_seconds as int)
}

/// Relies on axum_extra's Cookie::build with a path, a time::Duration
/// max-age and the HttpOnly flag, and on the cookie's Display impl: it writes
/// `name=value`, then `; HttpOnly` when the flag is set, `; Path=` and
/// `; Max-Age=` with the whole seconds; no other attribute is set.
#[verifier::external_body]
fn build_cookie(name: &str, value: &str, path: &str, max_age_seconds: i64, http_only: bool) -> (r: String)
    ensures
        r@ == cookie_text(name@, value@, path@, max_age_seconds, http_only),
{
    axum_extra::extract::cookie::Cookie::build((name.to_string(), value.to_string()))
        .path(path.to_string())
        .max_age(time::Duration::seconds(max_age_seconds))
        .http_only(http_only)
        .build()
        .to_string()
}

/// Any failure of the store, reported without its details.
pub fn store_outcome<T>(result: Result<T, StoreError>) -> (r: Result<T, HttpError>)
    ensures
        result matches Ok(v) ==> r == Ok::<T, HttpError>(v),
        result is Err ==> r == Err::<T, HttpError>(HttpError::spec_new(ErrorMessage::ServerError, ErrorKind::ServerError)),
{
    match result {
        Ok(v) => Ok(v),
        Err(_) => Err(HttpError::server_error(ErrorMessage::ServerError)),
    }
}

/// What the store is asked to insert for a registration.
#[derive(Debug)]
pub struct NewUser {
    pub name: String,
    pub email: String,
    pub password_hash: String,
    pub verification_token: String,
    pub token_expires_at: i64,
}

/// Prepares a registration at time `now_micros`: validates the request,
/// hashes the password and makes a verification token from `fresh` that
/// expires a day later.
pub fn prepare_registration(body: &RegisterUserDto, fresh: u128, now_micros: i64) -> (r: Result<NewUser, HttpError>)
    ensures
        body.violation() matches Some(v) ==> r == Err::<NewUser, HttpError>(
            HttpError::spec_new(ErrorMessage::Invalid(v), ErrorKind::BadRequest),
        ),
        body.violation() is None && now_micros + VERIFICATION_WINDOW_MICROS > i64::MAX ==> r == Err::<
            NewUser,
            HttpError,
        >(HttpError::spec_new(ErrorMessage::ServerError, ErrorKind::ServerError)),
        body.violation() is None && now_micros + VERIFICATION_WINDOW_MICROS <= i64::MAX ==> match password_length_error(
            body.password@,
        ) {
            Some(e) => r == Err::<NewUser, HttpError>(HttpError::spec_new(e, ErrorKind::ServerError)),
            None => r is Ok,
        },
        r matches Ok(u) ==> {
            &&& body.violation() is None
            &&& u.name@ == body.name@
            &&& u.email@ == body.email@
            &&& compare_outcome(body.password@, u.password_hash@) == Ok::<bool, ErrorMessage>(true)
            &&& u.password_hash@ != body.password@
            &&& u.verification_token@ == uuid_text(fresh)
            &&& u.token_expires_at == now_micros + VERIFICATION_WINDOW_MICROS
        },
{
    if let Err(v) = body.validate() {
        return Err(HttpError::bad_request(ErrorMessage::Invalid(v)));
    }
    let expires = match now_micros.checked_add(VERIFICATION_WINDOW_MICROS) {
        Some(t) => t,
        None => {
            return Err(HttpError::server_error(ErrorMessage::ServerError));
        },
    };
    let password_hash = match hash(body.password.as_str()) {
        Ok(h) => h,
        Err(e) => {
            return Err(HttpError::server_error(e));
        },
    };
    Ok(
        NewUser {
            name: body.name.clone(),
            email: body.email.clone(),
            password_hash,
            verification_token: uuid_to_string(fresh),
            token_expires_at: expires,
        },
    )
}

/// The outcome of inserting a new user: a taken e-mail is a conflict.
pub fn registration_outcome(saved: Result<(), StoreError>) -> (r: Result<(), HttpError>)
    ensures
        saved is Ok ==> r is Ok,
        saved == Err::<(), StoreError>(StoreError::UniqueViolation) ==> r == Err::<(), HttpError>(
            HttpError::spec_new(ErrorMessage::EmailExist, ErrorKind::Conflict),
        ),
        saved == Err::<(), StoreError>(StoreError::Other) ==> r == Err::<(), HttpError>(
            HttpError::spec_new(ErrorMessage::ServerError, ErrorKind::ServerError),
        ),
{
    match saved {
        Ok(()) => Ok(()),
        Err(StoreError::UniqueViolation) => Err(HttpError::unique_constraint_violation(ErrorMessage::EmailExist)),
        Err(StoreError::Other) => Err(HttpError::server_error(ErrorMessage::ServerError)),
    }
}

/// A successful login: the token, and the cookie that carries it.
#[derive(Debug)]
pub struct LoginSuccess {
    pub token: String,
    pub cookie: String,
}

pub open spec fn wrong_credentials() -> HttpError {
    HttpError::spec_new(ErrorMessage::WrongCredentials, ErrorKind::BadRequest)
}

/// Decides a login at time `now` (seconds since the Unix epoch), once the
/// request has been validated and the user looked up by e-mail. A missing
/// user, an unreadable digest and a wrong password are all reported as wrong
/// credentials. On success the token names the user for `ttl_minutes`
/// minutes, and the cookie carries it for as long.
pub fn login_outcome(
    body: &LoginUserDto,
    lookup: Result<Option<User>, StoreError>,
    secret: &[u8],
    ttl_minutes: i64,
    now: i64,
) -> (r: Result<LoginSuccess, HttpError>)
    ensures
        lookup is Err ==> r == Err::<LoginSuccess, HttpError>(
            HttpError::spec_new(ErrorMessage::ServerError, ErrorKind::ServerError),
        ),
        lookup == Ok::<Option<User>, StoreError>(None) ==> r == Err::<LoginSuccess, HttpError>(wrong_credentials()),
        lookup matches Ok(Some(u)) ==> match compare_outcome(body.password@, u.password@) {
            Ok(true) => if lifetime_ok(now as int, ttl_minutes as int) {
                r is Ok
            } else {
                r == Err::<LoginSuccess, HttpError>(
                    HttpError::spec_new(ErrorMessage::ServerError, ErrorKind::ServerError),
                )
            },
            _ => r == Err::<LoginSuccess, HttpError>(wrong_credentials()),
        },
        r matches Ok(s) ==> lookup matches Ok(Some(u)) && {
            &&& jwt_claims(s.token@, secret@) == Some(
                (uuid_text(u.id), now as u64, expiry_of(now as int, ttl_minutes as int) as u64),
            )
            &&& s.cookie@ == cookie_text(TOKEN_COOKIE@, s.token@, TOKEN_COOKIE_PATH@, (ttl_minutes * 60) as i64, true)
            &&& forall|later: int|
                now <= later < expiry_of(now as int, ttl_minutes as int) ==> #[trigger] auth_subject(
                    Some(s.token@),
                    None,
                    secret@,
                    later,
                ) == Ok::<u128, ErrorMessage>(u.id)
        },
{
    let user = match lookup {
        Err(_) => {
            return Err(HttpError::server_error(ErrorMessage::ServerError));
        },
        Ok(None) => {
            return Err(HttpError::bad_request(ErrorMessage::WrongCredentials));
        },
        Ok(Some(u)) => u,
    };
    match compare(body.password.as_str(), user.password.as_str()) {
        Ok(true) => {},
        _ => {
            return Err(HttpError::bad_request(ErrorMessage::WrongCredentials));
        },
    }
    let subject = uuid_to_string(user.id);
    let token = match create_token_at(subject.as_str(), secret, ttl_minutes, now) {
        Ok(t) => t,
        Err(_) => {
            return Err(HttpError::server_error(ErrorMessage::ServerError));
        },
    };
    assert forall|later: int| now <= later < expiry_of(now as int, ttl_minutes as int) implies #[trigger] auth_subject(
        Some(token@),
        None,
        secret@,
        later,
    ) == Ok::<u128, ErrorMessage>(user.id) by {
        assert(validated_subject(token@, secret@, later) == Some(subject@));
    }
    let cookie = build_cookie(TOKEN_COOKIE, token.as_str(), TOKEN_COOKIE_PATH, ttl_minutes * 60, true);
    Ok(LoginSuccess { token, cookie })
}

/// Decides a password change once the request has been validated and the
/// current user looked up again: the old password must match, and the new
/// one is hashed.
pub fn password_change(body: &UserPassUpdateDto, lookup: Result<Option<User>, StoreError>) -> (r: Result<String, HttpError>)
    ensures
        lookup is Err ==> r == Err::<String, HttpError>(
            HttpError::spec_new(ErrorMessage::ServerError, ErrorKind::ServerError),
        ),
        lookup == Ok::<Option<User>, StoreError>(None) ==> r == Err::<String, HttpError>(
            HttpError::spec_new(ErrorMessage::InvalidToken, ErrorKind::Unauthorized),
        ),
        lookup matches Ok(Some(u)) ==> match compare_outcome(body.old_password@, u.password@) {
            Err(e) => r == Err::<String, HttpError>(HttpError::spec_new(e, ErrorKind::BadRequest)),
            Ok(false) => r == Err::<String, HttpError>(
                HttpError::spec_new(ErrorMessage::OldPasswordIncorrect, ErrorKind::BadRequest),
            ),
            Ok(true) => match password_length_error(body.new_password@) {
                Some(e) => r == Err::<String, HttpError>(HttpError::spec_new(e, ErrorKind::ServerError)),
                None => r is Ok,
            },
        },
        r matches Ok(h) ==> compare_outcome(body.new_password@, h@) == Ok::<bool, ErrorMessage>(true),
        r matches Ok(h) ==> h@ != body.new_password@,
{
    let user = match lookup {
        Err(_) => {
            return Err(HttpError::server_error(ErrorMessage::ServerError));
        },
        Ok(None) => {
            return Err(HttpError::unauthorized(ErrorMessage::InvalidToken));
        },
        Ok(Some(u)) => u,
    };
    match compare(body.old_password.as_str(), user.password.as_str()) {
        Err(e) => Err(HttpError::bad_request(e)),
        Ok(false) => Err(HttpError::bad_request(ErrorMessage::OldPasswordIncorrect)),
        Ok(true) => match hash(body.new_password.as_str()) {
            Ok(h) => Ok(h),
            Err(e) => Err(HttpError::server_error(e)),
        },
    }
}

} // verus!
