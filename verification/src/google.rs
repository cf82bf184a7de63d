use vstd::prelude::*;
use vstd::string::StringExecFns;
use crate::error::AppError;
use crate::models::{GoogleAccount, User};

verus! {

/// The profile Google answers about the account that signed in.
#[derive(Debug)]
pub struct GoogleUserInfo {
    pub id: String,
    pub email: String,
    pub name: String,
}

/// The query Google sends back to the callback address.
#[derive(Debug)]
pub struct GoogleCallbackQuery {
    pub code: String,
}

/// Everything the OAuth client for Google is made from.
#[derive(Debug)]
pub struct GoogleOAuthSettings {
    pub client_id: String,
    pub client_secret: String,
    pub redirect_uri: String,
    pub auth_url: String,
    pub token_url: String,
    /// The permissions asked of the user, in order.
    pub scopes: Vec<String>,
}

/// Google's consent page.
pub open spec fn google_auth_url() -> Seq<char> {
    "https://accounts.google.com/o/oauth2/v2/auth"@
}

/// Google's token exchange endpoint.
pub open spec fn google_token_url() -> Seq<char> {
    "https://oauth2.googleapis.com/token"@
}

/// Google's profile endpoint.
pub open spec fn google_profile_url() -> Seq<char> {
    "https://www.googleapis.com/oauth2/v2/userinfo"@
}

/// The OAuth settings for signing in with Google: the application's
/// credentials and callback address, Google's two endpoints, and the
/// `email` and `profile` permissions.
pub fn google_oauth_settings(client_id: String, client_secret: String, redirect_uri: String) -> (s: GoogleOAuthSettings)
    ensures
        s.client_id == client_id,
        s.client_secret == client_secret,
        s.redirect_uri == redirect_uri,
        s.auth_url@ == google_auth_url(),
        s.token_url@ == google_token_url(),
        s.scopes@.len() == 2,
        s.scopes@[0]@ == "email"@,
        s.scopes@[1]@ == "profile"@,
{
    GoogleOAuthSettings {
        client_id,
        client_secret,
        redirect_uri,
        auth_url: String::from_str("https://accounts.google.com/o/oauth2/v2/auth"),
        token_url: String::from_str("https://oauth2.googleapis.com/token"),
        scopes: vec![String::from_str("email"), String::from_str("profile")],
    }
}

/// The address the profile of a signed-in Google account is read from.
pub fn google_profile_endpoint() -> (url: String)
    ensures
        url@ == google_profile_url(),
{
    String::from_str("https://www.googleapis.com/oauth2/v2/userinfo")
}

/// A step of the exchange with Google (trading the code for a token,
/// reading the profile) that brought nothing back refuses the sign-in as
/// bad credentials.
pub fn google_step<T>(outcome: Option<T>) -> (r: Result<T, AppError>)
    ensures
        outcome matches Some(v) ==> r == Ok::<T, AppError>(v),
        outcome is None ==> r == Err::<T, AppError>(AppError::InvalidCredentials),
{
    match outcome {
        Some(v) => Ok(v),
        None => Err(AppError::InvalidCredentials),
    }
}

/// The account a Google sign-in ends in, once the account carrying the
/// profile's Google id has been looked up: that account unchanged, or a new
/// one with the profile's e-mail address, its name as user name, and its id.
pub fn google_callback(existing: Option<User>, profile: &GoogleUserInfo) -> (plan: GoogleAccount)
    ensures
        existing matches Some(u) ==> plan == GoogleAccount::Existing(u),
        existing is None ==> (plan matches GoogleAccount::Create(n) && n.email@ == profile.email@
            && n.username@ == profile.name@ && n.google_id@ == profile.id@),
{
    User::find_or_create_google_user(
        existing,
        profile.id.as_str(),
        profile.email.as_str(),
        profile.name.as_str(),
    )
}

} // verus!
