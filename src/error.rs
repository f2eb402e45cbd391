use vstd::prelude::*;

verus! {

/// The four kinds of failure that reach a caller.
#[derive(Debug, Clone, Copy, PartialEq, Eq, Structural)]
pub enum ErrorKind {
    BadRequest,
    Unauthorized,
    Conflict,
    ServerError,
}

impl ErrorKind {
    pub open spec fn spec_status_code(self) -> u16 {
        match self {
            ErrorKind::BadRequest => 400,
            ErrorKind::Unauthorized => 401,
            ErrorKind::Conflict => 409,
            ErrorKind::ServerError => 500,
        }
    }

    /// The HTTP status that reports a failure of this kind.
    pub fn status_code(&self) -> (r: u16)
        ensures
            r == self.spec_status_code(),
    {
        match self {
            ErrorKind::BadRequest => 400,
            ErrorKind::Unauthorized => 401,
            ErrorKind::Conflict => 409,
            ErrorKind::ServerError => 500,
        }
    }
}

/// A rule of request validation that an input broke.
#[derive(Debug, Clone, Copy, PartialEq, Eq, Structural)]
pub enum ValidationError {
    NameRequired,
    EmailRequired,
    EmailInvalid,
    PasswordTooShort,
    ConfirmPasswordRequired,
    PasswordsDoNotMatch,
    PageTooSmall,
    PageTooLarge,
    LimitOutOfRange,
    TokenRequired,
}

/// Why a request failed.
#[derive(Debug, Clone, Copy, PartialEq, Eq, Structural)]
pub enum ErrorMessage {
    EmptyPassword,
    ExceededMaxPasswordLength,
    HashingError,
    InvalidToken,
    TokenNotProvided,
    WrongCredentials,
    OldPasswordIncorrect,
    EmailExist,
    UserNotFound,
    UserNotAuthorized,
    PermissionDenied,
    ResumeNotFound,
    UploadUnreadable,
    ServerError,
    Invalid(ValidationError),
}

impl ErrorMessage {
    /// A human-readable text for the reason.
    pub fn to_str(&self) -> &'static str {
        match self {
            ErrorMessage::EmptyPassword => "Password cannot be empty",
            ErrorMessage::ExceededMaxPasswordLength => "Password must not be more than 64 characters",
            ErrorMessage::HashingError => "Error while hashing password",
            ErrorMessage::InvalidToken => "Authentication token is invalid or expired",
            ErrorMessage::TokenNotProvided => "You are not logged in, please provide a token",
            ErrorMessage::WrongCredentials => "Email or password is wrong",
            ErrorMessage::OldPasswordIncorrect => "Old password is incorrect",
            ErrorMessage::EmailExist => "A user with this email already exists",
            ErrorMessage::UserNotFound => "User belonging to this token no longer exists",
            ErrorMessage::UserNotAuthorized => "Authentication required. Please log in.",
            ErrorMessage::PermissionDenied => "You are not allowed to perform this action",
            ErrorMessage::ResumeNotFound => "Resume not found",
            ErrorMessage::UploadUnreadable => "The uploaded file could not be read",
            ErrorMessage::ServerError => "Server error. Please try again later",
            ErrorMessage::Invalid(v) => match v {
                ValidationError::NameRequired => "Name is required",
                ValidationError::EmailRequired => "Email is required",
                ValidationError::EmailInvalid => "Email is not valid",
                ValidationError::PasswordTooShort => "Password must be at least 6 characters",
                ValidationError::ConfirmPasswordRequired => "Confirm password is required",
                ValidationError::PasswordsDoNotMatch => "Passwords do not match",
                ValidationError::PageTooSmall => "Page must be at least 1",
                ValidationError::PageTooLarge => "Page is too large",
                ValidationError::LimitOutOfRange => "Limit must be between 1 and 50",
                ValidationError::TokenRequired => "Token is required",
            },
        }
    }
}

/// A failure as it is reported to a caller: a kind and a reason.
#[derive(Debug, Clone, Copy, PartialEq, Eq, Structural)]
pub struct HttpError {
    pub status: ErrorKind,
    pub reason: ErrorMessage,
}

impl HttpError {
    pub open spec fn spec_new(reason: ErrorMessage, status: ErrorKind) -> HttpError {
        HttpError { status, reason }
    }

    pub fn new(reason: ErrorMessage, status: ErrorKind) -> (r: HttpError)
        ensures
            r == HttpError::spec_new(reason, status),
    {
        HttpError { status, reason }
    }

    pub fn bad_request(reason: ErrorMessage) -> (r: HttpError)
        ensures
            r == HttpError::spec_new(reason, ErrorKind::BadRequest),
    {
        HttpError { status: ErrorKind::BadRequest, reason }
    }

    pub fn unauthorized(reason: ErrorMessage) -> (r: HttpError)
        ensures
            r == HttpError::spec_new(reason, ErrorKind::Unauthorized),
    {
        HttpError { status: ErrorKind::Unauthorized, reason }
    }

    pub fn unique_constraint_violation(reason: ErrorMessage) -> (r: HttpError)
        ensures
            r == HttpError::spec_new(reason, ErrorKind::Conflict),
    {
        HttpError { status: ErrorKind::Conflict, reason }
    }

    pub fn server_error(reason: ErrorMessage) -> (r: HttpError)
        ensures
            r == HttpError::spec_new(reason, ErrorKind::ServerError),
    {
        HttpError { status: ErrorKind::ServerError, reason }
    }

    /// The text shown to the caller.
    pub fn message(&self) -> &'static str {
        self.reason.to_str()
    }
}

} // verus!
