use vstd::prelude::*;
use vstd::string::StringExecFns;

verus! {

/// Everything a request can be refused with.
#[derive(Debug)]
pub enum AppError {
    /// The database failed; holds the failure's text.
    Database(String),
    /// Password hashing failed; holds the failure's text.
    Bcrypt(String),
    /// Token handling failed; holds the failure's text.
    Jwt(String),
    EmailTaken,
    UsernameTaken,
    InvalidCredentials,
    InvalidPassword,
    NotFound,
}

/// HTTP status that answers each kind of refusal.
pub open spec fn status_of(e: AppError) -> u16 {
    match e {
        AppError::Database(_) => 500,
        AppError::Bcrypt(_) => 500,
        AppError::Jwt(_) => 500,
        AppError::EmailTaken => 409,
        AppError::UsernameTaken => 409,
        AppError::InvalidCredentials => 401,
        AppError::InvalidPassword => 401,
        AppError::NotFound => 404,
    }
}

/// Text that describes each kind of refusal.
pub open spec fn message_of(e: AppError) -> Seq<char> {
    match e {
        AppError::Database(t) => "Database error: "@ + t@,
        AppError::Bcrypt(t) => "bcrypt error:"@ + t@,
        AppError::Jwt(t) => "jwt error: "@ + t@,
        AppError::EmailTaken => "Email already exists"@,
        AppError::UsernameTaken => "Username already exists"@,
        AppError::InvalidCredentials => "Missing required information"@,
        AppError::InvalidPassword => "password has to be at least 8 characters long"@,
        AppError::NotFound => "User not found"@,
    }
}

/// Whether the refusal comes from a failing service rather than from the request.
pub open spec fn is_internal(e: AppError) -> bool {
    e is Database || e is Bcrypt || e is Jwt
}

impl AppError {
    /// The HTTP status this refusal is answered with.
    pub fn status_code(&self) -> (status: u16)
        ensures
            status == status_of(*self),
    {
        match self {
            AppError::Database(_) => 500,
            AppError::Bcrypt(_) => 500,
            AppError::Jwt(_) => 500,
            AppError::EmailTaken => 409,
            AppError::UsernameTaken => 409,
            AppError::InvalidCredentials => 401,
            AppError::InvalidPassword => 401,
            AppError::NotFound => 404,
        }
    }

    /// The human-readable description of this refusal.
    pub fn message(&self) -> (text: String)
        ensures
            text@ == message_of(*self),
    {
        match self {
            AppError::Database(t) => String::from_str("Database error: ").concat(t.as_str()),
            AppError::Bcrypt(t) => String::from_str("bcrypt error:").concat(t.as_str()),
            AppError::Jwt(t) => String::from_str("jwt error: ").concat(t.as_str()),
            AppError::EmailTaken => String::from_str("Email already exists"),
            AppError::UsernameTaken => String::from_str("Username already exists"),
            AppError::InvalidCredentials => String::from_str("Missing required information"),
            AppError::InvalidPassword => String::from_str(
                "password has to be at least 8 characters long",
            ),
            AppError::NotFound => String::from_str("User not found"),
        }
    }

    /// The status and the `error` text of the answer to this refusal.
    pub fn into_response(&self) -> (answer: (u16, String))
        ensures
            answer.0 == status_of(*self),
            answer.1@ == message_of(*self),
    {
        (self.status_code(), self.message())
    }
}

/// Refusals caused by a failing service are answered with status 500, and
/// only those; every other refusal gets a 4xx status.
pub proof fn internal_failures_answer_500(e: AppError)
    ensures
        (status_of(e) == 500) <==> is_internal(e),
        !is_internal(e) ==> 400 <= status_of(e) < 500,
{
}

} // verus!
