use vstd::prelude::*;

verus! {

/// The role of an identity: a closed set.
#[derive(Debug, Clone, Copy, PartialEq, Eq, Structural)]
pub enum UserRole {
    Admin,
    User,
}

impl UserRole {
    pub open spec fn spec_str(self) -> Seq<char> {
        match self {
            UserRole::Admin => "admin"@,
            UserRole::User => "user"@,
        }
    }

    /// The lower-case name under which the role is stored.
    pub fn to_str(&self) -> (r: &'static str)
        ensures
            r@ == self.spec_str(),
    {
        match self {
            UserRole::Admin => "admin",
            UserRole::User => "user",
        }
    }
}

/// An identity as the store holds it. Identifiers are 128-bit UUID values;
/// times are microseconds since the Unix epoch.
#[derive(Debug)]
pub struct User {
    pub id: u128,
    pub name: String,
    pub email: String,
    pub password: String,
    pub role: UserRole,
    pub verified: bool,
    pub verification_token: Option<String>,
    pub token_expiration: Option<i64>,
    pub created_at: Option<i64>,
    pub updated_at: Option<i64>,
}

/// serde_json's value, carried opaque: the analysis result of a document.
#[verifier::external_type_specification]
#[verifier::external_body]
pub struct ExJsonValue(serde_json::Value);

/// A stored document record: one uploaded file, its owner, where it was
/// staged and the analysis result, if one was obtained.
#[derive(Debug)]
pub struct Resume {
    pub id: u128,
    pub user_id: u128,
    pub file_path: String,
    pub analysis_result: Option<serde_json::Value>,
    pub uploaded_at: Option<i64>,
}

/// How a call into the store failed.
#[derive(Debug, Clone, Copy, PartialEq, Eq, Structural)]
pub enum StoreError {
    /// A unique constraint was violated.
    UniqueViolation,
    /// Any other failure.
    Other,
}

} // verus!
