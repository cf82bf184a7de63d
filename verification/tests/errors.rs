use auth_backend::error::AppError;

fn all_errors() -> Vec<(AppError, u16, &'static str)> {
    vec![
        (AppError::Database("boom".to_string()), 500, "Database error: boom"),
        (AppError::Bcrypt("bad".to_string()), 500, "bcrypt error:bad"),
        (AppError::Jwt("expired".to_string()), 500, "jwt error: expired"),
        (AppError::EmailTaken, 409, "Email already exists"),
        (AppError::UsernameTaken, 409, "Username already exists"),
        (AppError::InvalidCredentials, 401, "Missing required information"),
        (AppError::InvalidPassword, 401, "password has to be at least 8 characters long"),
        (AppError::NotFound, 404, "User not found"),
    ]
}

#[test]
fn each_error_has_its_status() {
    for (e, status, _) in all_errors() {
        assert_eq!(e.status_code(), status);
    }
}

#[test]
fn each_error_has_its_message() {
    for (e, _, text) in all_errors() {
        assert_eq!(e.message(), text);
    }
}

#[test]
fn response_pairs_status_and_message() {
    for (e, status, text) in all_errors() {
        let (s, m) = e.into_response();
        assert_eq!(s, status);
        assert_eq!(m, text);
    }
}

#[test]
fn only_service_failures_answer_500() {
    for (e, status, _) in all_errors() {
        let internal = matches!(e, AppError::Database(_) | AppError::Bcrypt(_) | AppError::Jwt(_));
        assert_eq!(status == 500, internal);
        if !internal {
            assert!((400..500).contains(&status));
        }
    }
}
