use resume_backend::auth::{authenticate, ensure_owner, extract_token, resolve_identity, role_check, strip_bearer};
use resume_backend::error::{ErrorKind, ErrorMessage};
use resume_backend::models::{StoreError, User, UserRole};
use resume_backend::token::create_token_at;

const SECRET: &[u8] = b"gate-secret";
const NOW: i64 = 1_700_000_000;
const ID: u128 = 0x67e5_5044_10b1_426f_9247_bb68_0e5f_e0c8;
const ID_TEXT: &str = "67e55044-10b1-426f-9247-bb680e5fe0c8";

fn user(role: UserRole) -> User {
    User {
        id: ID,
        name: "Ann".to_string(),
        email: "ann@x.com".to_string(),
        password: "digest".to_string(),
        role,
        verified: false,
        verification_token: None,
        token_expiration: None,
        created_at: Some(1),
        updated_at: Some(2),
    }
}

#[test]
fn bearer_header_is_stripped() {
    assert_eq!(strip_bearer("Bearer abc.def"), Some("abc.def".to_string()));
    assert_eq!(strip_bearer("Bearer "), Some(String::new()));
    assert_eq!(strip_bearer("bearer abc"), None);
    assert_eq!(strip_bearer("Basic abc"), None);
    assert_eq!(strip_bearer("Bear"), None);
}

#[test]
fn cookie_preferred_over_header() {
    assert_eq!(extract_token(Some("c"), Some("Bearer h")), Some("c".to_string()));
    assert_eq!(extract_token(None, Some("Bearer h")), Some("h".to_string()));
    assert_eq!(extract_token(None, Some("Token h")), None);
    assert_eq!(extract_token(None, None), None);
}

#[test]
fn request_without_credentials_is_rejected() {
    let err = authenticate(None, None, SECRET, NOW).unwrap_err();
    assert_eq!(err.status, ErrorKind::Unauthorized);
    assert_eq!(err.reason, ErrorMessage::TokenNotProvided);
}

#[test]
fn request_with_expired_token_is_rejected() {
    let token = create_token_at(ID_TEXT, SECRET, 10, NOW).unwrap();
    let err = authenticate(Some(&token), None, SECRET, NOW + 600).unwrap_err();
    assert_eq!(err.status, ErrorKind::Unauthorized);
    assert_eq!(err.reason, ErrorMessage::InvalidToken);
}

#[test]
fn valid_token_gives_identifier_to_look_up() {
    let token = create_token_at(ID_TEXT, SECRET, 10, NOW).unwrap();
    assert_eq!(authenticate(Some(&token), None, SECRET, NOW + 1), Ok(ID));
    let header = format!("Bearer {}", token);
    assert_eq!(authenticate(None, Some(&header), SECRET, NOW + 1), Ok(ID));
}

#[test]
fn subject_that_is_no_uuid_is_rejected() {
    let token = create_token_at("not-a-uuid", SECRET, 10, NOW).unwrap();
    let err = authenticate(Some(&token), None, SECRET, NOW).unwrap_err();
    assert_eq!(err.reason, ErrorMessage::InvalidToken);
}

#[test]
fn lookup_failure_and_absence_look_alike() {
    let absent = resolve_identity(Ok(None)).unwrap_err();
    let failed = resolve_identity(Err(StoreError::Other)).unwrap_err();
    assert_eq!(absent, failed);
    assert_eq!(absent.status, ErrorKind::Unauthorized);
    assert_eq!(absent.reason, ErrorMessage::UserNotFound);
    assert_eq!(resolve_identity(Ok(Some(user(UserRole::User)))).unwrap().id, ID);
}

#[test]
fn role_gate_follows_allow_list() {
    let admin = user(UserRole::Admin);
    let plain = user(UserRole::User);
    assert!(role_check(Some(&admin), &[UserRole::Admin]).is_ok());
    assert!(role_check(Some(&plain), &[UserRole::User, UserRole::Admin]).is_ok());
    assert!(role_check(Some(&plain), &[UserRole::Admin, UserRole::User]).is_ok());
    assert!(role_check(Some(&admin), &[UserRole::User, UserRole::Admin, UserRole::User]).is_ok());
    let denied = role_check(Some(&plain), &[UserRole::Admin, UserRole::Admin]).unwrap_err();
    assert_eq!(denied.reason, ErrorMessage::PermissionDenied);
    assert_eq!(denied.status, ErrorKind::Unauthorized);
    assert!(role_check(Some(&admin), &[UserRole::User]).is_err());
    assert!(role_check(Some(&admin), &[]).is_err());
}

#[test]
fn role_gate_without_identity_denies() {
    let err = role_check(None, &[UserRole::Admin, UserRole::User]).unwrap_err();
    assert_eq!(err.reason, ErrorMessage::UserNotAuthorized);
}

#[test]
fn owner_check() {
    let u = user(UserRole::User);
    assert!(ensure_owner(&u, ID).is_ok());
    assert_eq!(ensure_owner(&u, ID + 1).unwrap_err().reason, ErrorMessage::PermissionDenied);
}

#[test]
fn upper_case_and_simple_uuid_subjects_are_read() {
    let token = create_token_at("67E55044-10B1-426F-9247-BB680E5FE0C8", SECRET, 10, NOW).unwrap();
    assert_eq!(authenticate(Some(&token), None, SECRET, NOW), Ok(ID));
    let token = create_token_at("67e5504410b1426f9247bb680e5fe0c8", SECRET, 10, NOW).unwrap();
    assert_eq!(authenticate(Some(&token), None, SECRET, NOW), Ok(ID));
}
