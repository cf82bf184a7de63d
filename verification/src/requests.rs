use vstd::prelude::*;

verus! {

/// Body of a request to replace a password with a reset code.
#[derive(Debug)]
pub struct ResetPasswordRequest {
    pub code: String,
    pub new_password: String,
}

/// Body of a request to open an account.
#[derive(Debug)]
pub struct SignUpRequest {
    pub email: String,
    pub username: String,
}

/// Body of a request for a reset code.
#[derive(Debug)]
pub struct ForgotPasswordRequest {
    pub email: String,
}

/// Body of a request to replace a temporary password.
#[derive(Debug)]
pub struct SetPasswordRequest {
    pub email: String,
    pub temp_password: String,
    pub new_password: String,
}

/// Body of a sign-in request.
#[derive(Debug)]
pub struct SignInRequest {
    pub email: String,
    pub password: String,
}

} // verus!
