use auth_backend::error::AppError;
use auth_backend::google::{google_callback, google_oauth_settings, google_profile_endpoint, google_step, GoogleUserInfo};
use auth_backend::models::{GoogleAccount, User};

#[test]
fn settings_name_google_endpoints_and_scopes() {
    let s = google_oauth_settings("id".into(), "secret".into(), "http://localhost/cb".into());
    assert_eq!(s.client_id, "id");
    assert_eq!(s.client_secret, "secret");
    assert_eq!(s.redirect_uri, "http://localhost/cb");
    assert_eq!(s.auth_url, "https://accounts.google.com/o/oauth2/v2/auth");
    assert_eq!(s.token_url, "https://oauth2.googleapis.com/token");
    assert_eq!(s.scopes, vec!["email".to_string(), "profile".to_string()]);
    assert_eq!(google_profile_endpoint(), "https://www.googleapis.com/oauth2/v2/userinfo");
}

#[test]
fn failed_google_steps_refuse() {
    assert!(matches!(google_step::<String>(None), Err(AppError::InvalidCredentials)));
    assert_eq!(google_step(Some(5)).ok(), Some(5));
}

fn profile() -> GoogleUserInfo {
    GoogleUserInfo { id: "g-1".into(), email: "g@example.com".into(), name: "Grace".into() }
}

#[test]
fn known_google_account_is_reused() {
    let u = User { id: 3, username: "old".into(), email: "old@example.com".into(), password: None, google_id: Some("g-1".into()), created_at: 5 };
    match google_callback(Some(u), &profile()) {
        GoogleAccount::Existing(u) => {
            assert_eq!(u.id, 3);
            assert_eq!(u.username, "old");
        },
        GoogleAccount::Create(_) => panic!("expected the stored account"),
    }
}

#[test]
fn new_google_account_is_made_from_profile() {
    match google_callback(None, &profile()) {
        GoogleAccount::Create(n) => {
            assert_eq!(n.email, "g@example.com");
            assert_eq!(n.username, "Grace");
            assert_eq!(n.google_id, "g-1");
        },
        GoogleAccount::Existing(_) => panic!("expected a new account"),
    }
}
