use vstd::prelude::*;
use crate::error::ValidationError;
use crate::ids::{uuid_text, uuid_to_string};
use crate::models::{User, UserRole};

verus! {

/// Whether `text` is an e-mail address by the HTML5 rule that validator
/// applies.
pub uninterp spec fn email_valid(text: Seq<char>) -> bool;

/// Relies on validator::validate_email, which rejects the empty string and
/// any text without an `@`.
#[verifier::external_body]
fn check_email(text: &str) -> (r: bool)
    ensures
        r == email_valid(text@),
        text@.len() == 0 || !text@.contains('@') ==> !r,
{
    validator::validate_email(text)
}

/// The rule on a required e-mail field: present, then well-formed.
pub open spec fn email_violation(email: Seq<char>) -> Option<ValidationError> {
    if email.len() < 1 {
        Some(ValidationError::EmailRequired)
    } else if !email_valid(email) {
        Some(ValidationError::EmailInvalid)
    } else {
        None
    }
}

fn email_rule(email: &str) -> (r: Option<ValidationError>)
    ensures
        r == email_violation(email@),
{
    if email.unicode_len() < 1 {
        Some(ValidationError::EmailRequired)
    } else if !check_email(email) {
        Some(ValidationError::EmailInvalid)
    } else {
        None
    }
}

fn strings_equal(a: &str, b: &str) -> (r: bool)
    ensures
        r == (a@ == b@),
{
    let n = a.unicode_len();
    if n != b.unicode_len() {
        return false;
    }
    let mut i: usize = 0;
    while i < n
        invariant
            n == a@.len(),
            n == b@.len(),
            i <= n,
            forall|j: int| 0 <= j < i ==> a@[j] == b@[j],
        decreases n - i,
    {
        if a.get_char(i) != b.get_char(i) {
            return false;
        }
        i += 1;
    }
    assert(a@ =~= b@);
    true
}

pub open spec fn as_result(v: Option<ValidationError>) -> Result<(), ValidationError> {
    match v {
        Some(e) => Err(e),
        None => Ok(()),
    }
}

/// A registration request.
#[derive(Debug)]
pub struct RegisterUserDto {
    pub name: String,
    pub email: String,
    pub password: String,
    pub confirm_password: String,
}

impl RegisterUserDto {
    /// The first rule the request breaks, in field order.
    pub open spec fn violation(&self) -> Option<ValidationError> {
        if self.name@.len() < 1 {
            Some(ValidationError::NameRequired)
        } else if email_violation(self.email@) is Some {
            email_violation(self.email@)
        } else if self.password@.len() < 6 {
            Some(ValidationError::PasswordTooShort)
        } else if self.confirm_password@.len() < 1 {
            Some(ValidationError::ConfirmPasswordRequired)
        } else if self.confirm_password@ != self.password@ {
            Some(ValidationError::PasswordsDoNotMatch)
        } else {
            None
        }
    }

    pub fn validate(&self) -> (r: Result<(), ValidationError>)
        ensures
            r == as_result(self.violation()),
    {
        if self.name.as_str().unicode_len() < 1 {
            return Err(ValidationError::NameRequired);
        }
        if let Some(e) = email_rule(self.email.as_str()) {
            return Err(e);
        }
        if self.password.as_str().unicode_len() < 6 {
            return Err(ValidationError::PasswordTooShort);
        }
        if self.confirm_password.as_str().unicode_len() < 1 {
            return Err(ValidationError::ConfirmPasswordRequired);
        }
        if !strings_equal(self.confirm_password.as_str(), self.password.as_str()) {
            return Err(ValidationError::PasswordsDoNotMatch);
        }
        Ok(())
    }
}

/// A login request.
#[derive(Debug)]
pub struct LoginUserDto {
    pub email: String,
    pub password: String,
}

impl LoginUserDto {
    pub open spec fn violation(&self) -> Option<ValidationError> {
        if email_violation(self.email@) is Some {
            email_violation(self.email@)
        } else if self.password@.len() < 6 {
            Some(ValidationError::PasswordTooShort)
        } else {
            None
        }
    }

    pub fn validate(&self) -> (r: Result<(), ValidationError>)
        ensures
            r == as_result(self.violation()),
    {
        if let Some(e) = email_rule(self.email.as_str()) {
            return Err(e);
        }
        if self.password.as_str().unicode_len() < 6 {
            return Err(ValidationError::PasswordTooShort);
        }
        Ok(())
    }
}

/// The largest page size a listing accepts.
pub const MAX_PAGE_LIMIT: usize = 50;

/// The page size when none is asked for.
pub const DEFAULT_PAGE_LIMIT: usize = 10;

/// Paging of a listing: a 1-based page number and a page size.
#[derive(Debug)]
pub struct RequestQueryDto {
    pub page: Option<usize>,
    pub limit: Option<usize>,
}

impl RequestQueryDto {
    pub open spec fn violation(&self) -> Option<ValidationError> {
        if self.page matches Some(p) && p < 1 {
            Some(ValidationError::PageTooSmall)
        } else if self.limit matches Some(l) && (l < 1 || l > MAX_PAGE_LIMIT) {
            Some(ValidationError::LimitOutOfRange)
        } else {
            None
        }
    }

    pub fn validate(&self) -> (r: Result<(), ValidationError>)
        ensures
            r == as_result(self.violation()),
    {
        if let Some(p) = self.page {
            if p < 1 {
                return Err(ValidationError::PageTooSmall);
            }
        }
        if let Some(l) = self.limit {
            if l < 1 || l > MAX_PAGE_LIMIT {
                return Err(ValidationError::LimitOutOfRange);
            }
        }
        Ok(())
    }

    pub open spec fn spec_page(&self) -> int {
        match self.page {
            Some(p) => p as int,
            None => 1,
        }
    }

    pub open spec fn spec_limit(&self) -> int {
        match self.limit {
            Some(l) => l as int,
            None => DEFAULT_PAGE_LIMIT as int,
        }
    }

    pub open spec fn spec_offset(&self) -> int {
        (self.spec_page() - 1) * self.spec_limit()
    }

    /// The rows a valid query asks for, as `(offset, limit)`: page 1 when no
    /// page is given, ten rows when no limit is. An offset beyond what the
    /// store can address is refused.
    pub fn window(&self) -> (r: Result<(u64, u64), ValidationError>)
        ensures
            self.violation() matches Some(e) ==> r == Err::<(u64, u64), ValidationError>(e),
            self.violation() is None && self.spec_offset() > i64::MAX ==> r == Err::<(u64, u64), ValidationError>(
                ValidationError::PageTooLarge,
            ),
            self.violation() is None && self.spec_offset() <= i64::MAX ==> r == Ok::<(u64, u64), ValidationError>(
                (self.spec_offset() as u64, self.spec_limit() as u64),
            ),
    {
        self.validate()?;
        let page: usize = match self.page {
            Some(p) => p,
            None => 1,
        };
        let limit: usize = match self.limit {
            Some(l) => l,
            None => DEFAULT_PAGE_LIMIT,
        };
        let skipped = (page - 1) as u64;
        let size = limit as u64;
        match skipped.checked_mul(size) {
            Some(offset) if offset <= i64::MAX as u64 => Ok((offset, size)),
            _ => Err(ValidationError::PageTooLarge),
        }
    }
}

/// A request to rename the current user.
#[derive(Debug)]
pub struct NameUpdateDto {
    pub name: String,
}

impl NameUpdateDto {
    pub fn validate(&self) -> (r: Result<(), ValidationError>)
        ensures
            r is Ok <==> self.name@.len() >= 1,
            r is Err ==> r == Err::<(), ValidationError>(ValidationError::NameRequired),
    {
        if self.name.as_str().unicode_len() < 1 {
            return Err(ValidationError::NameRequired);
        }
        Ok(())
    }
}

/// A request to change the current user's role.
#[derive(Debug)]
pub struct RoleUpdateDto {
    pub role: UserRole,
}

/// Every role of the closed set is acceptable.
pub fn validate_user_role(role: &UserRole) -> (r: Result<(), ValidationError>)
    ensures
        r is Ok,
{
    match role {
        UserRole::Admin | UserRole::User => Ok(()),
    }
}

impl RoleUpdateDto {
    pub fn validate(&self) -> (r: Result<(), ValidationError>)
        ensures
            r is Ok,
    {
        validate_user_role(&self.role)
    }
}

/// A request to change the current user's password.
#[derive(Debug)]
pub struct UserPassUpdateDto {
    pub new_password: String,
    pub new_password_confirm: String,
    pub old_password: String,
}

impl UserPassUpdateDto {
    pub open spec fn violation(&self) -> Option<ValidationError> {
        if self.new_password@.len() < 6 {
            Some(ValidationError::PasswordTooShort)
        } else if self.new_password_confirm@.len() < 6 {
            Some(ValidationError::ConfirmPasswordRequired)
        } else if self.new_password_confirm@ != self.new_password@ {
            Some(ValidationError::PasswordsDoNotMatch)
        } else if self.old_password@.len() < 6 {
            Some(ValidationError::PasswordTooShort)
        } else {
            None
        }
    }

    pub fn validate(&self) -> (r: Result<(), ValidationError>)
        ensures
            r == as_result(self.violation()),
    {
        if self.new_password.as_str().unicode_len() < 6 {
            return Err(ValidationError::PasswordTooShort);
        }
        if self.new_password_confirm.as_str().unicode_len() < 6 {
            return Err(ValidationError::ConfirmPasswordRequired);
        }
        if !strings_equal(self.new_password_confirm.as_str(), self.new_password.as_str()) {
            return Err(ValidationError::PasswordsDoNotMatch);
        }
        if self.old_password.as_str().unicode_len() < 6 {
            return Err(ValidationError::PasswordTooShort);
        }
        Ok(())
    }
}

/// The query of an e-mail verification link.
#[derive(Debug)]
pub struct VerifyEmailQueryDto {
    pub token: String,
}

impl VerifyEmailQueryDto {
    pub fn validate(&self) -> (r: Result<(), ValidationError>)
        ensures
            r is Ok <==> self.token@.len() >= 1,
            r is Err ==> r == Err::<(), ValidationError>(ValidationError::TokenRequired),
    {
        if self.token.as_str().unicode_len() < 1 {
            return Err(ValidationError::TokenRequired);
        }
        Ok(())
    }
}

/// A request for a password-reset mail.
#[derive(Debug)]
pub struct ForgotPasswordRequestDto {
    pub email: String,
}

impl ForgotPasswordRequestDto {
    pub fn validate(&self) -> (r: Result<(), ValidationError>)
        ensures
            r == as_result(email_violation(self.email@)),
    {
        match email_rule(self.email.as_str()) {
            Some(e) => Err(e),
            None => Ok(()),
        }
    }
}

/// A password reset with the token from a reset mail.
#[derive(Debug)]
pub struct ResetPasswordRequestDto {
    pub token: String,
    pub new_password: String,
    pub new_password_confirm: String,
}

impl ResetPasswordRequestDto {
    pub open spec fn violation(&self) -> Option<ValidationError> {
        if self.token@.len() < 1 {
            Some(ValidationError::TokenRequired)
        } else if self.new_password@.len() < 6 {
            Some(ValidationError::PasswordTooShort)
        } else if self.new_password_confirm@.len() < 6 {
            Some(ValidationError::ConfirmPasswordRequired)
        } else if self.new_password_confirm@ != self.new_password@ {
            Some(ValidationError::PasswordsDoNotMatch)
        } else {
            None
        }
    }

    pub fn validate(&self) -> (r: Result<(), ValidationError>)
        ensures
            r == as_result(self.violation()),
    {
        if self.token.as_str().unicode_len() < 1 {
            return Err(ValidationError::TokenRequired);
        }
        if self.new_password.as_str().unicode_len() < 6 {
            return Err(ValidationError::PasswordTooShort);
        }
        if self.new_password_confirm.as_str().unicode_len() < 6 {
            return Err(ValidationError::ConfirmPasswordRequired);
        }
        if !strings_equal(self.new_password_confirm.as_str(), self.new_password.as_str()) {
            return Err(ValidationError::PasswordsDoNotMatch);
        }
        Ok(())
    }
}

/// The public view of a user: no password, no verification token.
#[derive(Debug)]
pub struct FilterUserDto {
    pub id: String,
    pub name: String,
    pub email: String,
    pub role: String,
    pub verified: bool,
    pub created_at: i64,
    pub updated_at: i64,
}

impl FilterUserDto {
    /// Whether `dto` is the public view of `user`.
    pub open spec fn shows(dto: FilterUserDto, user: User) -> bool {
        &&& dto.id@ == uuid_text(user.id)
        &&& dto.name@ == user.name@
        &&& dto.email@ == user.email@
        &&& dto.role@ == user.role.spec_str()
        &&& dto.verified == user.verified
        &&& user.created_at == Some(dto.created_at)
        &&& user.updated_at == Some(dto.updated_at)
    }

    pub fn filter_user(user: &User) -> (r: FilterUserDto)
        requires
            user.created_at is Some,
            user.updated_at is Some,
        ensures
            FilterUserDto::shows(r, *user),
    {
        let created_at = match user.created_at {
            Some(t) => t,
            None => 0,
        };
        let updated_at = match user.updated_at {
            Some(t) => t,
            None => 0,
        };
        FilterUserDto {
            id: uuid_to_string(user.id),
            name: user.name.clone(),
            email: user.email.clone(),
            role: user.role.to_str().to_string(),
            verified: user.verified,
            created_at,
            updated_at,
        }
    }

    pub fn filter_users(users: &[User]) -> (r: Vec<FilterUserDto>)
        requires
            forall|i: int| 0 <= i < users@.len() ==> (#[trigger] users@[i]).created_at is Some && users@[i].updated_at is Some,
        ensures
            r@.len() == users@.len(),
            forall|i: int| 0 <= i < users@.len() ==> FilterUserDto::shows(#[trigger] r@[i], users@[i]),
    {
        let mut out: Vec<FilterUserDto> = Vec::new();
        let mut i: usize = 0;
        while i < users.len()
            invariant
                i <= users@.len(),
                out@.len() == i,
                forall|k: int| 0 <= k < users@.len() ==> (#[trigger] users@[k]).created_at is Some && users@[k].updated_at is Some,
                forall|k: int| 0 <= k < i ==> FilterUserDto::shows(#[trigger] out@[k], users@[k]),
            decreases users@.len() - i,
        {
            out.push(FilterUserDto::filter_user(&users[i]));
            i += 1;
        }
        out
    }
}

/// The body of a single-user response.
#[derive(Debug)]
pub struct UserData {
    pub user: FilterUserDto,
}

#[derive(Debug)]
pub struct UserResponseDto {
    pub status: String,
    pub data: UserData,
}

#[derive(Debug)]
pub struct UserListResponseDto {
    pub status: String,
    pub users: Vec<FilterUserDto>,
    pub results: i64,
}

#[derive(Debug)]
pub struct UserLoginResponseDto {
    pub status: String,
    pub token: String,
}

/// A plain status-and-message response.
#[derive(Debug)]
pub struct Response {
    pub status: &'static str,
    pub message: String,
}

} // verus!
