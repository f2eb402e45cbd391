use resume_backend::dtos::{
    validate_user_role, FilterUserDto, ForgotPasswordRequestDto, LoginUserDto, NameUpdateDto, RegisterUserDto,
    RequestQueryDto, ResetPasswordRequestDto, RoleUpdateDto, UserPassUpdateDto, VerifyEmailQueryDto,
};
use resume_backend::error::{ErrorKind, ErrorMessage, HttpError, ValidationError};
use resume_backend::models::{User, UserRole};

fn user(id: u128, role: UserRole) -> User {
    User {
        id,
        name: "Ann".to_string(),
        email: "ann@x.com".to_string(),
        password: "digest".to_string(),
        role,
        verified: true,
        verification_token: Some("t".to_string()),
        token_expiration: None,
        created_at: Some(10),
        updated_at: Some(20),
    }
}

#[test]
fn role_names() {
    assert_eq!(UserRole::Admin.to_str(), "admin");
    assert_eq!(UserRole::User.to_str(), "user");
    assert!(validate_user_role(&UserRole::Admin).is_ok());
    assert!(RoleUpdateDto { role: UserRole::User }.validate().is_ok());
}

#[test]
fn register_rules_in_field_order() {
    let ok = RegisterUserDto {
        name: "Ann".to_string(),
        email: "a@x.com".to_string(),
        password: "secret1".to_string(),
        confirm_password: "secret1".to_string(),
    };
    assert_eq!(ok.validate(), Ok(()));
    let no_name = RegisterUserDto { name: String::new(), email: String::new(), ..ok_copy(&ok) };
    assert_eq!(no_name.validate(), Err(ValidationError::NameRequired));
    let no_email = RegisterUserDto { email: String::new(), ..ok_copy(&ok) };
    assert_eq!(no_email.validate(), Err(ValidationError::EmailRequired));
    let bad_email = RegisterUserDto { email: "ax.com".to_string(), ..ok_copy(&ok) };
    assert_eq!(bad_email.validate(), Err(ValidationError::EmailInvalid));
    let short = RegisterUserDto { password: "12345".to_string(), confirm_password: "12345".to_string(), ..ok_copy(&ok) };
    assert_eq!(short.validate(), Err(ValidationError::PasswordTooShort));
    let no_confirm = RegisterUserDto { confirm_password: String::new(), ..ok_copy(&ok) };
    assert_eq!(no_confirm.validate(), Err(ValidationError::ConfirmPasswordRequired));
    let mismatch = RegisterUserDto { confirm_password: "secret2".to_string(), ..ok_copy(&ok) };
    assert_eq!(mismatch.validate(), Err(ValidationError::PasswordsDoNotMatch));
}

fn ok_copy(d: &RegisterUserDto) -> RegisterUserDto {
    RegisterUserDto {
        name: d.name.clone(),
        email: d.email.clone(),
        password: d.password.clone(),
        confirm_password: d.confirm_password.clone(),
    }
}

#[test]
fn login_rules() {
    let ok = LoginUserDto { email: "a@x.com".to_string(), password: "secret1".to_string() };
    assert_eq!(ok.validate(), Ok(()));
    let bad = LoginUserDto { email: "a@".to_string(), password: "secret1".to_string() };
    assert_eq!(bad.validate(), Err(ValidationError::EmailInvalid));
    let short = LoginUserDto { email: "a@x.com".to_string(), password: "abc".to_string() };
    assert_eq!(short.validate(), Err(ValidationError::PasswordTooShort));
}

#[test]
fn paging_defaults_and_bounds() {
    assert_eq!(RequestQueryDto { page: None, limit: None }.window(), Ok((0, 10)));
    assert_eq!(RequestQueryDto { page: Some(3), limit: Some(20) }.window(), Ok((40, 20)));
    assert_eq!(RequestQueryDto { page: Some(1), limit: Some(50) }.window(), Ok((0, 50)));
    assert_eq!(RequestQueryDto { page: Some(0), limit: None }.window(), Err(ValidationError::PageTooSmall));
    assert_eq!(RequestQueryDto { page: None, limit: Some(0) }.window(), Err(ValidationError::LimitOutOfRange));
    assert_eq!(RequestQueryDto { page: None, limit: Some(51) }.window(), Err(ValidationError::LimitOutOfRange));
    assert_eq!(
        RequestQueryDto { page: Some(usize::MAX), limit: Some(50) }.window(),
        Err(ValidationError::PageTooLarge)
    );
}

#[test]
fn other_request_rules() {
    assert_eq!(NameUpdateDto { name: String::new() }.validate(), Err(ValidationError::NameRequired));
    assert!(NameUpdateDto { name: "B".to_string() }.validate().is_ok());
    assert_eq!(VerifyEmailQueryDto { token: String::new() }.validate(), Err(ValidationError::TokenRequired));
    assert_eq!(
        ForgotPasswordRequestDto { email: "nobody".to_string() }.validate(),
        Err(ValidationError::EmailInvalid)
    );
    assert!(ForgotPasswordRequestDto { email: "a@x.com".to_string() }.validate().is_ok());
    let reset = ResetPasswordRequestDto {
        token: "t".to_string(),
        new_password: "secret1".to_string(),
        new_password_confirm: "secret2".to_string(),
    };
    assert_eq!(reset.validate(), Err(ValidationError::PasswordsDoNotMatch));
    let change = UserPassUpdateDto {
        new_password: "secret1".to_string(),
        new_password_confirm: "secret1".to_string(),
        old_password: "old".to_string(),
    };
    assert_eq!(change.validate(), Err(ValidationError::PasswordTooShort));
}

#[test]
fn public_view_of_user() {
    let dto = FilterUserDto::filter_user(&user(0x1f, UserRole::Admin));
    assert_eq!(dto.id, "00000000-0000-0000-0000-00000000001f");
    assert_eq!(dto.role, "admin");
    assert_eq!(dto.name, "Ann");
    assert!(dto.verified);
    assert_eq!((dto.created_at, dto.updated_at), (10, 20));
    let all = FilterUserDto::filter_users(&[user(1, UserRole::User), user(2, UserRole::Admin)]);
    assert_eq!(all.len(), 2);
    assert_eq!(all[1].role, "admin");
}

#[test]
fn error_texts() {
    assert_eq!(HttpError::bad_request(ErrorMessage::Invalid(ValidationError::NameRequired)).message(), "Name is required");
    assert!(!ErrorMessage::InvalidToken.to_str().is_empty());
}

#[test]
fn error_kinds_map_to_http_statuses() {
    assert_eq!(ErrorKind::BadRequest.status_code(), 400);
    assert_eq!(ErrorKind::Unauthorized.status_code(), 401);
    assert_eq!(ErrorKind::Conflict.status_code(), 409);
    assert_eq!(ErrorKind::ServerError.status_code(), 500);
}
