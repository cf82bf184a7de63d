use auth_backend::auth::{
    forgot_password, forgot_password_reply, new_password_allowed, reset_password,
    reset_password_reply, set_password, set_password_reply, sign_in, sign_up, sign_up_reply,
    MIN_PASSWORD_BYTES,
};
use auth_backend::error::AppError;
use auth_backend::models::{
    DatabaseFailure, PasswordResetToken, User, UserResponse, RESET_CODE_LIFETIME,
};
use auth_backend::passwords::{check_password, hash_password};
use auth_backend::requests::{ResetPasswordRequest, SetPasswordRequest, SignInRequest, SignUpRequest};

fn user_with(password: Option<String>) -> User {
    User {
        id: 0x1234,
        username: "ada".to_string(),
        email: "ada@example.com".to_string(),
        password,
        google_id: None,
        created_at: 1_700_000_000_000_000,
    }
}

fn is_invalid(r: &Result<impl Sized, AppError>) -> bool {
    matches!(r, Err(AppError::InvalidCredentials))
}

#[test]
fn new_password_length_counts_bytes() {
    assert_eq!(MIN_PASSWORD_BYTES, 8);
    assert!(is_invalid(&new_password_allowed("1234567")));
    assert!(new_password_allowed("12345678").is_ok());
    assert!(is_invalid(&new_password_allowed("")));
    // three two-byte characters: six bytes
    assert!(is_invalid(&new_password_allowed("\u{e9}\u{e9}\u{e9}")));
    // four two-byte characters: eight bytes
    assert!(new_password_allowed("\u{e9}\u{e9}\u{e9}\u{e9}").is_ok());
}

#[test]
fn sign_in_admits_matching_password() {
    let h = hash_password("hunter22").unwrap();
    let body = SignInRequest { email: "ada@example.com".into(), password: "hunter22".into() };
    let u = sign_in(&body, Ok(user_with(Some(h)))).ok().unwrap();
    assert_eq!(u.id, 0x1234);
}

#[test]
fn sign_in_refusals_look_alike() {
    let h = hash_password("hunter22").unwrap();
    let body = SignInRequest { email: "ada@example.com".into(), password: "hunter23".into() };
    assert!(is_invalid(&sign_in(&body, Ok(user_with(Some(h))))));
    assert!(is_invalid(&sign_in(&body, Err(AppError::NotFound))));
    assert!(is_invalid(&sign_in(&body, Err(AppError::Database("down".into())))));
    assert!(is_invalid(&sign_in(&body, Ok(user_with(None)))));
}

#[test]
fn sign_in_reports_malformed_stored_hash() {
    let body = SignInRequest { email: "a".into(), password: "b".into() };
    assert!(matches!(sign_in(&body, Ok(user_with(Some("xyz".into())))), Err(AppError::Bcrypt(_))));
}

#[test]
fn set_password_refuses_short_password_first() {
    let body = SetPasswordRequest { email: "a".into(), temp_password: "t".into(), new_password: "short".into() };
    assert!(is_invalid(&set_password(&body, Err(AppError::NotFound))));
    assert!(is_invalid(&set_password(&body, Ok(user_with(None)))));
}

#[test]
fn set_password_needs_the_temporary_password() {
    let h = hash_password("TEMPpass1234").unwrap();
    let body = SetPasswordRequest { email: "a".into(), temp_password: "other".into(), new_password: "long enough".into() };
    assert!(is_invalid(&set_password(&body, Ok(user_with(Some(h.clone()))))));
    assert!(is_invalid(&set_password(&body, Err(AppError::Database("x".into())))));
    let good = SetPasswordRequest { email: "a".into(), temp_password: "TEMPpass1234".into(), new_password: "long enough".into() };
    let stored = set_password(&good, Ok(user_with(Some(h)))).ok().unwrap();
    assert_eq!(check_password("long enough", &Some(stored.clone())).ok(), Some(true));
    assert_eq!(check_password("TEMPpass1234", &Some(stored)).ok(), Some(false));
    assert_eq!(set_password_reply(), "Password set successfully. You can sign in.");
}

#[test]
fn reset_password_uses_the_code_account() {
    let token = PasswordResetToken {
        id: 7,
        user_id: 42,
        token: "ABCDEF123456".into(),
        expires_at: 10,
        used: false,
        created_at: 0,
    };
    let body = ResetPasswordRequest { code: "ABCDEF123456".into(), new_password: "brand new pw".into() };
    let r = reset_password(&body, Ok(token)).ok().unwrap();
    assert_eq!(r.user_id, 42);
    assert_eq!(check_password("brand new pw", &Some(r.hashed_password)).ok(), Some(true));
    assert!(is_invalid(&reset_password(&body, Err(AppError::InvalidCredentials))));
    assert!(matches!(reset_password(&body, Err(AppError::NotFound)), Err(AppError::NotFound)));
    let short = ResetPasswordRequest { code: "x".into(), new_password: "1234".into() };
    assert!(is_invalid(&reset_password(&short, Err(AppError::NotFound))));
    assert_eq!(reset_password_reply(), "Password reset successfully. You can now sign in.");
}

#[test]
fn sign_up_needs_address_and_name() {
    assert!(is_invalid(&sign_up(&SignUpRequest { email: "".into(), username: "ada".into() })));
    assert!(is_invalid(&sign_up(&SignUpRequest { email: "a@b.c".into(), username: "".into() })));
    let a = sign_up(&SignUpRequest { email: "a@b.c".into(), username: "ada".into() }).ok().unwrap();
    assert_eq!(a.email, "a@b.c");
    assert_eq!(a.username, "ada");
    assert_eq!(a.temp_password.len(), 12);
    assert!(a.temp_password.chars().all(|c| c.is_ascii_alphanumeric()));
    assert_eq!(check_password(&a.temp_password, &Some(a.hashed_password)).ok(), Some(true));
    assert_eq!(sign_up_reply(), "Account created successfully. Check you email for your temporary password");
}

#[test]
fn forgot_password_makes_a_code_for_a_known_account() {
    assert!(matches!(forgot_password(Err(AppError::Database("x".into())), 0), Err(AppError::NotFound)));
    let now = 1_700_000_000_000_000;
    let (u, code) = forgot_password(Ok(user_with(None)), now).ok().unwrap();
    assert_eq!(u.email, "ada@example.com");
    assert_eq!(code.user_id, 0x1234);
    assert_eq!(code.token.len(), 12);
    assert!(code.token.chars().all(|c| c.is_ascii_alphanumeric()));
    assert_eq!(code.expires_at, now + RESET_CODE_LIFETIME);
    assert_eq!(code.expires_at, now + 3_600_000_000);
    assert_eq!(forgot_password_reply(), "If that email exists, a reset link has been sent.");
}

#[test]
fn taken_email_is_recognised() {
    let f = DatabaseFailure {
        database_message: Some("duplicate key value violates unique constraint \"users_email_key\"".into()),
        text: "error returned from database: duplicate".into(),
    };
    assert!(matches!(User::create(Err(f)), Err(AppError::EmailTaken)));
    let other = DatabaseFailure {
        database_message: Some("duplicate key value violates unique constraint \"users_username_key\"".into()),
        text: "error returned from database: dup name".into(),
    };
    match User::create(Err(other)) {
        Err(AppError::Database(t)) => assert_eq!(t, "error returned from database: dup name"),
        _ => panic!("expected a database failure"),
    }
    let pool = DatabaseFailure { database_message: None, text: "pool timed out users_email_key".into() };
    assert!(matches!(User::create(Err(pool)), Err(AppError::Database(_))));
    let short = DatabaseFailure { database_message: Some("users_email_ke".into()), text: "t".into() };
    assert!(matches!(User::create(Err(short)), Err(AppError::Database(_))));
    let exact = DatabaseFailure { database_message: Some("users_email_key".into()), text: "t".into() };
    assert!(matches!(User::create(Err(exact)), Err(AppError::EmailTaken)));
    assert_eq!(User::create(Ok(user_with(None))).ok().unwrap().id, 0x1234);
}

#[test]
fn missing_rows_are_not_found() {
    assert!(matches!(User::find_by_email(Ok(None)), Err(AppError::NotFound)));
    assert!(matches!(User::find_by_id(Ok(None)), Err(AppError::NotFound)));
    assert!(matches!(User::reset_password(Ok(None)), Err(AppError::NotFound)));
    assert!(matches!(User::find_by_id(Err(AppError::Database("x".into()))), Err(AppError::Database(_))));
    assert_eq!(User::find_by_email(Ok(Some(user_with(None)))).ok().unwrap().username, "ada");
}

#[test]
fn response_leaves_out_credentials() {
    let r = UserResponse::from(user_with(Some("secret".into())));
    assert_eq!(r.id, 0x1234);
    assert_eq!(r.username, "ada");
    assert_eq!(r.email, "ada@example.com");
    assert_eq!(r.created_at, 1_700_000_000_000_000);
}

fn code(id: u128, text: &str, expires_at: i64, used: bool) -> PasswordResetToken {
    PasswordResetToken { id, user_id: id * 10, token: text.into(), expires_at, used, created_at: 0 }
}

#[test]
fn find_valid_takes_the_first_usable_match() {
    let c = "CODE".to_string();
    let list = vec![
        code(1, "CODE", 100, true),
        code(2, "OTHER", 500, false),
        code(3, "CODE", 50, false),
        code(4, "CODE", 500, false),
        code(5, "CODE", 600, false),
    ];
    assert_eq!(PasswordResetToken::find_valid(list, &c, 50).ok().unwrap().id, 4);
}

#[test]
fn expired_or_used_codes_are_refused() {
    let c = "CODE".to_string();
    assert!(is_invalid(&PasswordResetToken::find_valid(vec![code(1, "CODE", 100, true)], &c, 0)));
    assert!(is_invalid(&PasswordResetToken::find_valid(vec![code(1, "CODE", 100, false)], &c, 100)));
    assert!(PasswordResetToken::find_valid(vec![code(1, "CODE", 100, false)], &c, 99).is_ok());
    assert!(is_invalid(&PasswordResetToken::find_valid(vec![], &c, 0)));
    assert!(is_invalid(&PasswordResetToken::find_valid(vec![code(1, "code", 100, false)], &c, 0)));
}

#[test]
fn fresh_code_lasts_an_hour() {
    let t = PasswordResetToken::create(9, 1_000);
    assert_eq!(t.user_id, 9);
    assert_eq!(t.expires_at, 1_000 + 3_600_000_000);
    assert_eq!(t.token.len(), 12);
    let stored = code(1, &t.token, t.expires_at, false);
    assert!(stored.is_usable_at(1_000 + 3_600_000_000 - 1));
    assert!(!stored.is_usable_at(1_000 + 3_600_000_000));
    let spent = code(1, &t.token, t.expires_at, true);
    assert!(!spent.is_usable_at(0));
}

#[test]
fn marked_codes_are_refused() {
    let c = "CODE".to_string();
    let mut rows = vec![code(1, "CODE", 500, false), code(2, "OTHER", 500, false), code(3, "CODE", 900, false)];
    assert!(PasswordResetToken::find_valid(vec![code(1, "CODE", 500, false)], &c, 0).is_ok());
    PasswordResetToken::mark_used(&mut rows, &c);
    assert!(rows[0].used);
    assert!(!rows[1].used);
    assert!(rows[2].used);
    assert_eq!(rows[0].token, "CODE");
    assert_eq!(rows[2].expires_at, 900);
    assert_eq!(rows[1].id, 2);
    assert!(is_invalid(&PasswordResetToken::find_valid(rows, &c, 0)));
}
