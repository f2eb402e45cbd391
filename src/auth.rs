use vstd::prelude::*;
use crate::error::{ErrorKind, ErrorMessage, HttpError};
use crate::ids::{parse_uuid, uuid_parse};
use crate::models::{StoreError, User, UserRole};
use crate::token::{decode_token_at, validated_subject};

verus! {

/// The identity that authentication attaches to a request it lets through.
#[derive(Debug)]
pub struct JWTAuthMiddleware {
    pub user: User,
}

pub open spec fn bearer_prefix() -> Seq<char> {
    seq!['B', 'e', 'a', 'r', 'e', 'r', ' ']
}

/// The token carried by an `Authorization` header value, if it uses the
/// Bearer scheme.
pub open spec fn bearer_token(header: Seq<char>) -> Option<Seq<char>> {
    if header.len() >= 7 && header.subrange(0, 7) == bearer_prefix() {
        Some(header.subrange(7, header.len() as int))
    } else {
        None
    }
}

pub open spec fn view_opt(s: Option<&str>) -> Option<Seq<char>> {
    match s {
        Some(t) => Some(t@),
        None => None,
    }
}

/// The candidate token of a request: the `token` cookie if there is one,
/// else a Bearer token from the `Authorization` header.
pub open spec fn candidate_token(cookie: Option<Seq<char>>, authorization: Option<Seq<char>>) -> Option<Seq<char>> {
    match cookie {
        Some(c) => Some(c),
        None => match authorization {
            Some(h) => bearer_token(h),
            None => None,
        },
    }
}

/// The first stage of authentication: the identifier to look up, or why the request
/// is rejected before any lookup.
pub open spec fn auth_subject(
    cookie: Option<Seq<char>>,
    authorization: Option<Seq<char>>,
    secret: Seq<u8>,
    now: int,
) -> Result<u128, ErrorMessage> {
    match candidate_token(cookie, authorization) {
        None => Err(ErrorMessage::TokenNotProvided),
        Some(t) => match validated_subject(t, secret, now) {
            None => Err(ErrorMessage::InvalidToken),
            Some(sub) => match uuid_parse(sub) {
                None => Err(ErrorMessage::InvalidToken),
                Some(id) => Ok(id),
            },
        },
    }
}

/// The token of an `Authorization` header value that uses the Bearer scheme.
pub fn strip_bearer(header: &str) -> (r: Option<String>)
    ensures
        r is Some <==> bearer_token(header@) is Some,
        r matches Some(t) ==> bearer_token(header@) == Some(t@),
{
    let n = header.unicode_len();
    if n < 7 {
        return None;
    }
    if header.get_char(0) == 'B' && header.get_char(1) == 'e' && header.get_char(2) == 'a'
        && header.get_char(3) == 'r' && header.get_char(4) == 'e' && header.get_char(5) == 'r'
        && header.get_char(6) == ' ' {
        assert(header@.subrange(0, 7) =~= bearer_prefix());
        Some(header.substring_char(7, n).to_string())
    } else {
        assert(header@.subrange(0, 7) != bearer_prefix()) by {
            if header@.subrange(0, 7) == bearer_prefix() {
                assert(forall|i: int| 0 <= i < 7 ==> header@[i] == #[trigger] header@.subrange(0, 7)[i]);
            }
        }
        None
    }
}

/// The candidate token of a request: the `token` cookie is preferred over a
/// Bearer `Authorization` header.
pub fn extract_token(cookie: Option<&str>, authorization: Option<&str>) -> (r: Option<String>)
    ensures
        r is Some <==> candidate_token(view_opt(cookie), view_opt(authorization)) is Some,
        r matches Some(t) ==> candidate_token(view_opt(cookie), view_opt(authorization)) == Some(t@),
{
    match cookie {
        Some(c) => Some(c.to_string()),
        None => match authorization {
            Some(h) => strip_bearer(h),
            None => None,
        },
    }
}

/// The first stage of authentication, before the identity lookup: extracts the
/// token, validates it at time `now` under `secret` and reads its subject as
/// an identifier. A lookup follows exactly when this returns `Ok`.
pub fn authenticate(cookie: Option<&str>, authorization: Option<&str>, secret: &[u8], now: i64) -> (r: Result<u128, HttpError>)
    ensures
        match auth_subject(view_opt(cookie), view_opt(authorization), secret@, now as int) {
            Ok(id) => r == Ok::<u128, HttpError>(id),
            Err(m) => r == Err::<u128, HttpError>(HttpError::spec_new(m, ErrorKind::Unauthorized)),
        },
{
    let token = match extract_token(cookie, authorization) {
        Some(t) => t,
        None => {
            return Err(HttpError::unauthorized(ErrorMessage::TokenNotProvided));
        },
    };
    let subject = match decode_token_at(token.as_str(), secret, now) {
        Ok(s) => s,
        Err(_) => {
            return Err(HttpError::unauthorized(ErrorMessage::InvalidToken));
        },
    };
    match parse_uuid(subject.as_str()) {
        Some(id) => Ok(id),
        None => Err(HttpError::unauthorized(ErrorMessage::InvalidToken)),
    }
}

/// The second stage of authentication: the identity that the lookup found. An
/// absent identity and a failed lookup are reported alike.
pub fn resolve_identity(lookup: Result<Option<User>, StoreError>) -> (r: Result<User, HttpError>)
    ensures
        lookup matches Ok(Some(u)) ==> r == Ok::<User, HttpError>(u),
        !(lookup matches Ok(Some(_))) ==> r == Err::<User, HttpError>(
            HttpError::spec_new(ErrorMessage::UserNotFound, ErrorKind::Unauthorized),
        ),
{
    match lookup {
        Ok(Some(u)) => Ok(u),
        _ => Err(HttpError::unauthorized(ErrorMessage::UserNotFound)),
    }
}

/// Whether a role is in an allow-list.
pub open spec fn role_allowed(allowed: Seq<UserRole>, role: UserRole) -> bool {
    allowed.contains(role)
}

/// The role gate: denies when no identity is attached, or when its role is
/// not in `required_roles`.
pub fn role_check(identity: Option<&User>, required_roles: &[UserRole]) -> (r: Result<(), HttpError>)
    ensures
        identity is None ==> r == Err::<(), HttpError>(
            HttpError::spec_new(ErrorMessage::UserNotAuthorized, ErrorKind::Unauthorized),
        ),
        identity matches Some(u) ==> (r is Ok <==> role_allowed(required_roles@, u.role)),
        identity matches Some(u) && !role_allowed(required_roles@, u.role) ==> r == Err::<(), HttpError>(
            HttpError::spec_new(ErrorMessage::PermissionDenied, ErrorKind::Unauthorized),
        ),
{
    let user = match identity {
        Some(u) => u,
        None => {
            return Err(HttpError::unauthorized(ErrorMessage::UserNotAuthorized));
        },
    };
    let mut i: usize = 0;
    while i < required_roles.len()
        invariant
            0 <= i <= required_roles@.len(),
            identity == Some(user),
            forall|j: int| 0 <= j < i ==> required_roles@[j] != user.role,
        decreases required_roles@.len() - i,
    {
        if required_roles[i] == user.role {
            assert(required_roles@[i as int] == user.role);
            return Ok(());
        }
        i += 1;
    }
    Err(HttpError::unauthorized(ErrorMessage::PermissionDenied))
}

/// The role gate's outcome depends on the allow-list only as a set: its order
/// and repetitions do not matter.
pub proof fn lemma_role_gate_ignores_order(a: Seq<UserRole>, b: Seq<UserRole>, role: UserRole)
    requires
        a.to_set() == b.to_set(),
    ensures
        role_allowed(a, role) == role_allowed(b, role),
{
    assert(a.to_set().contains(role) == a.contains(role));
    assert(b.to_set().contains(role) == b.contains(role));
}

/// Allows a request on a user's resources only to that user.
pub fn ensure_owner(identity: &User, user_id: u128) -> (r: Result<(), HttpError>)
    ensures
        r is Ok <==> identity.id == user_id,
        r is Err ==> r == Err::<(), HttpError>(
            HttpError::spec_new(ErrorMessage::PermissionDenied, ErrorKind::Unauthorized),
        ),
{
    if identity.id != user_id {
        Err(HttpError::unauthorized(ErrorMessage::PermissionDenied))
    } else {
        Ok(())
    }
}

} // verus!
