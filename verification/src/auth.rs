use vstd::prelude::*;
use vstd::string::StringExecFns;
use vstd::utf8::encode_utf8;
use crate::error::AppError;
use crate::models::{NewPasswordResetToken, PasswordResetToken, User, RESET_CODE_LIFETIME};
use crate::passwords::{
    bcrypt_verify_outcome, check_password, generate_random_password, hash_password,
    password_alphabet, password_check, salt_failure_text, RANDOM_PASSWORD_LEN,
};
use crate::requests::{
    ResetPasswordRequest, SetPasswordRequest, SignInRequest, SignUpRequest,
};

verus! {

/// Fewest bytes a new password may have.
pub const MIN_PASSWORD_BYTES: usize = 8;

/// A new password is too short when its UTF-8 form has fewer than eight bytes.
pub open spec fn password_too_short(password: Seq<char>) -> bool {
    encode_utf8(password).len() < MIN_PASSWORD_BYTES
}

/// First step of setting or resetting a password: a new password shorter
/// than eight bytes is refused before anything is looked up.
pub fn new_password_allowed(new_password: &str) -> (r: Result<(), AppError>)
    ensures
        password_too_short(new_password@) ==> r == Err::<(), AppError>(AppError::InvalidCredentials),
        !password_too_short(new_password@) ==> r == Ok::<(), AppError>(()),
{
    if new_password.as_bytes().len() < MIN_PASSWORD_BYTES {
        Err(AppError::InvalidCredentials)
    } else {
        Ok(())
    }
}

/// The lookup of an account failed, or its stored password does not match:
/// either way the credentials are refused.
pub open spec fn credentials_refused(password: Seq<char>, account: Result<User, AppError>) -> bool {
    match account {
        Err(_) => true,
        Ok(u) => password_check(password, u.password) == Some(false),
    }
}

/// Sign-in, once the account with the given e-mail address has been looked
/// up: the account is admitted when the password matches its stored hash.
/// An unknown address and a wrong password get the same refusal.
pub fn sign_in(body: &SignInRequest, account: Result<User, AppError>) -> (r: Result<User, AppError>)
    ensures
        credentials_refused(body.password@, account) ==> r == Err::<User, AppError>(AppError::InvalidCredentials),
        account matches Ok(u) ==> (password_check(body.password@, u.password) == Some(true) ==> r == Ok::<User, AppError>(u)),
        account matches Ok(u) ==> (password_check(body.password@, u.password) is None ==> (r matches Err(e) && e is Bcrypt)),
{
    let user = match account {
        Ok(u) => u,
        Err(_) => return Err(AppError::InvalidCredentials),
    };
    match check_password(body.password.as_str(), &user.password) {
        Ok(true) => Ok(user),
        Ok(false) => Err(AppError::InvalidCredentials),
        Err(e) => Err(e),
    }
}

/// The answers `set_password` gives: a short new password or refused
/// credentials are refused as such; a malformed stored hash is a hashing
/// failure; with a matching temporary password the answer is a hash of the
/// new password, or the refusal carrying bcrypt's salt failure.
pub open spec fn set_password_answer(
    body: SetPasswordRequest,
    account: Result<User, AppError>,
    r: Result<String, AppError>,
) -> bool {
    if password_too_short(body.new_password@) {
        r == Err::<String, AppError>(AppError::InvalidCredentials)
    } else {
        match account {
            Err(_) => r == Err::<String, AppError>(AppError::InvalidCredentials),
            Ok(u) => match password_check(body.temp_password@, u.password) {
                Some(false) => r == Err::<String, AppError>(AppError::InvalidCredentials),
                None => r matches Err(e) && e is Bcrypt,
                Some(true) => match r {
                    Ok(h) => bcrypt_verify_outcome(body.new_password@, h@) == Some(true),
                    Err(e) => e matches AppError::Bcrypt(t) && salt_failure_text(t),
                },
            },
        }
    }
}

/// The answers `reset_password` gives: a short new password is refused as
/// bad credentials, a failed code lookup keeps its refusal, and with a found
/// code the answer is that code's account with a hash of the new password,
/// or the refusal carrying bcrypt's salt failure.
pub open spec fn reset_password_answer(
    body: ResetPasswordRequest,
    code: Result<PasswordResetToken, AppError>,
    r: Result<PasswordReset, AppError>,
) -> bool {
    if password_too_short(body.new_password@) {
        r == Err::<PasswordReset, AppError>(AppError::InvalidCredentials)
    } else {
        match code {
            Err(e) => r == Err::<PasswordReset, AppError>(e),
            Ok(t) => match r {
                Ok(p) => p.user_id == t.user_id && bcrypt_verify_outcome(body.new_password@, p.hashed_password@) == Some(true),
                Err(e) => e matches AppError::Bcrypt(f) && salt_failure_text(f),
            },
        }
    }
}

/// The answers `sign_up` gives: a missing address or name is refused as bad
/// credentials; otherwise the account to store, with the address and name
/// given and a random temporary password with its hash, or the refusal
/// carrying bcrypt's salt failure.
pub open spec fn sign_up_answer(body: SignUpRequest, r: Result<NewAccount, AppError>) -> bool {
    if body.email@.len() == 0 || body.username@.len() == 0 {
        r == Err::<NewAccount, AppError>(AppError::InvalidCredentials)
    } else {
        match r {
            Ok(a) => {
                &&& a.email@ == body.email@
                &&& a.username@ == body.username@
                &&& a.temp_password@.len() == RANDOM_PASSWORD_LEN
                &&& forall|i: int| 0 <= i < a.temp_password@.len() ==> password_alphabet().contains(#[trigger] a.temp_password@[i])
                &&& bcrypt_verify_outcome(a.temp_password@, a.hashed_password@) == Some(true)
            },
            Err(e) => e matches AppError::Bcrypt(t) && salt_failure_text(t),
        }
    }
}

/// Replacing a temporary password, once the account with the given e-mail
/// address has been looked up: the new password must be long enough and the
/// temporary one must match; the answer is the hash to store.
pub fn set_password(body: &SetPasswordRequest, account: Result<User, AppError>) -> (r: Result<String, AppError>)
    ensures
        password_too_short(body.new_password@) ==> r == Err::<String, AppError>(AppError::InvalidCredentials),
        !password_too_short(body.new_password@) && credentials_refused(body.temp_password@, account)
            ==> r == Err::<String, AppError>(AppError::InvalidCredentials),
        account matches Ok(u) ==> (password_check(body.temp_password@, u.password) is None
            && !password_too_short(body.new_password@) ==> (r matches Err(e) && e is Bcrypt)),
        account matches Ok(u) ==> (password_check(body.temp_password@, u.password) == Some(true)
            && !password_too_short(body.new_password@) ==> (r is Ok || (r matches Err(e) && e is Bcrypt))),
        r matches Ok(h) ==> bcrypt_verify_outcome(body.new_password@, h@) == Some(true),
        r matches Ok(_) ==> (account matches Ok(u) && password_check(body.temp_password@, u.password) == Some(true)),
        r matches Err(e) ==> (e is InvalidCredentials || e is Bcrypt),
        account matches Ok(u) ==> (password_check(body.temp_password@, u.password) == Some(true)
            && !password_too_short(body.new_password@) ==> ((r matches Ok(h)
            && bcrypt_verify_outcome(body.new_password@, h@) == Some(true))
            || (r matches Err(AppError::Bcrypt(t)) && salt_failure_text(t)))),
        set_password_answer(*body, account, r),
{
    if let Err(e) = new_password_allowed(body.new_password.as_str()) {
        return Err(e);
    }
    let user = match account {
        Ok(u) => u,
        Err(_) => return Err(AppError::InvalidCredentials),
    };
    match check_password(body.temp_password.as_str(), &user.password) {
        Ok(true) => {},
        Ok(false) => return Err(AppError::InvalidCredentials),
        Err(e) => return Err(e),
    }
    hash_password(body.new_password.as_str())
}

/// What a new password reset needs stored.
#[derive(Debug)]
pub struct PasswordReset {
    pub user_id: u128,
    pub hashed_password: String,
}

/// Resetting a password with a code, once the code has been looked up: the
/// new password must be long enough and the code usable; the answer names the
/// account and the hash to store for it.
pub fn reset_password(body: &ResetPasswordRequest, code: Result<PasswordResetToken, AppError>) -> (r:
    Result<PasswordReset, AppError>)
    ensures
        password_too_short(body.new_password@) ==> r == Err::<PasswordReset, AppError>(AppError::InvalidCredentials),
        !password_too_short(body.new_password@) ==> (code matches Err(e) ==> r == Err::<PasswordReset, AppError>(e)),
        r matches Ok(p) ==> (code matches Ok(t) && p.user_id == t.user_id
            && bcrypt_verify_outcome(body.new_password@, p.hashed_password@) == Some(true)),
        !password_too_short(body.new_password@) && code is Ok && r is Err ==> (r matches Err(e) && e is Bcrypt),
        !password_too_short(body.new_password@) ==> (code matches Ok(t) ==> ((r matches Ok(p)
            && p.user_id == t.user_id && bcrypt_verify_outcome(body.new_password@, p.hashed_password@) == Some(true))
            || (r matches Err(AppError::Bcrypt(f)) && salt_failure_text(f)))),
        reset_password_answer(*body, code, r),
{
    if let Err(e) = new_password_allowed(body.new_password.as_str()) {
        return Err(e);
    }
    let token = match code {
        Ok(t) => t,
        Err(e) => return Err(e),
    };
    match hash_password(body.new_password.as_str()) {
        Ok(h) => Ok(PasswordReset { user_id: token.user_id, hashed_password: h }),
        Err(e) => Err(e),
    }
}

/// An account about to be stored, with the temporary password to mail.
#[derive(Debug)]
pub struct NewAccount {
    pub email: String,
    pub username: String,
    pub temp_password: String,
    pub hashed_password: String,
}

/// Opening an account: both the e-mail address and the name must be given;
/// the account gets a random temporary password, stored as its hash.
pub fn sign_up(body: &SignUpRequest) -> (r: Result<NewAccount, AppError>)
    ensures
        (body.email@.len() == 0 || body.username@.len() == 0) ==> r == Err::<NewAccount, AppError>(AppError::InvalidCredentials),
        r matches Ok(a) ==> a.email@ == body.email@ && a.username@ == body.username@
            && a.temp_password@.len() == RANDOM_PASSWORD_LEN
            && (forall|i: int| 0 <= i < a.temp_password@.len() ==> password_alphabet().contains(#[trigger] a.temp_password@[i]))
            && bcrypt_verify_outcome(a.temp_password@, a.hashed_password@) == Some(true),
        body.email@.len() != 0 && body.username@.len() != 0 && r is Err ==> (r matches Err(e) && e is Bcrypt),
        body.email@.len() != 0 && body.username@.len() != 0 ==> ((r matches Ok(a) && a.email@ == body.email@
            && a.username@ == body.username@) || (r matches Err(AppError::Bcrypt(t)) && salt_failure_text(t))),
        sign_up_answer(*body, r),
{
    if body.email.as_str().is_empty() || body.username.as_str().is_empty() {
        return Err(AppError::InvalidCredentials);
    }
    let temp_password = generate_random_password();
    let hashed_password = match hash_password(temp_password.as_str()) {
        Ok(h) => h,
        Err(e) => return Err(e),
    };
    Ok(NewAccount {
        email: body.email.clone(),
        username: body.username.clone(),
        temp_password,
        hashed_password,
    })
}

/// Asking for a reset code at time `now`, once the account with the given
/// e-mail address has been looked up: an account that cannot be found is
/// refused as not found; otherwise a fresh code is made for it, expiring one
/// hour after `now`.
pub fn forgot_password(account: Result<User, AppError>, now: i64) -> (r: Result<(User, NewPasswordResetToken), AppError>)
    requires
        now <= i64::MAX - RESET_CODE_LIFETIME,
    ensures
        account is Err ==> r == Err::<(User, NewPasswordResetToken), AppError>(AppError::NotFound),
        account matches Ok(u) ==> (r matches Ok(p) && p.0 == u && p.1.user_id == u.id
            && p.1.expires_at == now + RESET_CODE_LIFETIME
            && p.1.token@.len() == RANDOM_PASSWORD_LEN
            && forall|i: int| 0 <= i < p.1.token@.len() ==> password_alphabet().contains(#[trigger] p.1.token@[i])),
{
    match account {
        Err(_) => Err(AppError::NotFound),
        Ok(u) => {
            let code = PasswordResetToken::create(u.id, now);
            Ok((u, code))
        },
    }
}

/// Text answered after a temporary password was replaced.
pub fn set_password_reply() -> (text: String)
    ensures
        text@ == "Password set successfully. You can sign in."@,
{
    String::from_str("Password set successfully. You can sign in.")
}

/// Text answered to a request for a reset code, whether or not the mail went out.
pub fn forgot_password_reply() -> (text: String)
    ensures
        text@ == "If that email exists, a reset link has been sent."@,
{
    String::from_str("If that email exists, a reset link has been sent.")
}

/// Text answered after a password was reset with a code.
pub fn reset_password_reply() -> (text: String)
    ensures
        text@ == "Password reset successfully. You can now sign in."@,
{
    String::from_str("Password reset successfully. You can now sign in.")
}

/// Text answered after an account was opened, whether or not the mail went out.
pub fn sign_up_reply() -> (text: String)
    ensures
        text@ == "Account created successfully. Check you email for your temporary password"@,
{
    String::from_str("Account created successfully. Check you email for your temporary password")
}

/// An unknown e-mail address and a wrong password are indistinguishable to
/// the one signing in: both are refused as bad credentials.
pub proof fn unknown_account_and_wrong_password_look_alike(
    password: Seq<char>,
    lookup_failure: AppError,
    u: User,
)
    requires
        password_check(password, u.password) == Some(false),
    ensures
        credentials_refused(password, Err(lookup_failure)),
        credentials_refused(password, Ok(u)),
{
}

/// A password whose stored hash was made from it is accepted at sign-in,
/// and an account without a stored password accepts none.
pub proof fn stored_hash_accepts_its_password(password: Seq<char>, u: User)
    requires
        u.password matches Some(h) && bcrypt_verify_outcome(password, h@) == Some(true),
    ensures
        password_check(password, u.password) == Some(true),
        !credentials_refused(password, Ok(u)),
{
}

/// A new password of at least eight bytes, given with a temporary password
/// that matches the account's stored hash, is set: the answer is a hash that
/// the new password verifies against. The only other answer is the refusal
/// that carries bcrypt's failure to draw a salt.
pub proof fn matching_temporary_password_sets_new_password(
    body: SetPasswordRequest,
    account: Result<User, AppError>,
    r: Result<String, AppError>,
)
    requires
        set_password_answer(body, account, r),
        !password_too_short(body.new_password@),
        account matches Ok(u) && password_check(body.temp_password@, u.password) == Some(true),
    ensures
        r matches Ok(h) ==> bcrypt_verify_outcome(body.new_password@, h@) == Some(true),
        r matches Err(e) ==> (e matches AppError::Bcrypt(t) && salt_failure_text(t)),
{
}

/// A usable code with a new password of at least eight bytes resets the
/// password of the code's account: the answer names that account and a hash
/// the new password verifies against. The only other answer is the refusal
/// that carries bcrypt's failure to draw a salt.
pub proof fn found_code_resets_its_account(
    body: ResetPasswordRequest,
    code: Result<PasswordResetToken, AppError>,
    r: Result<PasswordReset, AppError>,
)
    requires
        reset_password_answer(body, code, r),
        !password_too_short(body.new_password@),
        code is Ok,
    ensures
        r matches Ok(p) ==> p.user_id == code->Ok_0.user_id
            && bcrypt_verify_outcome(body.new_password@, p.hashed_password@) == Some(true),
        r matches Err(e) ==> (e matches AppError::Bcrypt(t) && salt_failure_text(t)),
{
}

/// An account is opened for any given address and name: the answer stores
/// exactly that address and name, with a temporary password its hash
/// verifies. The only other answer is the refusal that carries bcrypt's
/// failure to draw a salt, which no address or name can bring about.
pub proof fn sign_up_opens_any_named_account(body: SignUpRequest, r: Result<NewAccount, AppError>)
    requires
        sign_up_answer(body, r),
        body.email@.len() != 0,
        body.username@.len() != 0,
    ensures
        r matches Ok(a) ==> a.email@ == body.email@ && a.username@ == body.username@
            && bcrypt_verify_outcome(a.temp_password@, a.hashed_password@) == Some(true),
        r matches Err(e) ==> (e matches AppError::Bcrypt(t) && salt_failure_text(t)),
{
}

} // verus!
