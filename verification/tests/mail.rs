use auth_backend::mail::{forgot_password_email, reset_password_email, welcome_email};

#[test]
fn welcome_message_is_composed() {
    let d = welcome_email("Service <noreply@example.com>", "ada@example.com", "Ada", "TEMP12345678").ok().unwrap();
    assert_eq!(d.subject, "Welcome to Auth Backend!.Your Temporary password");
    assert_eq!(d.from.name.as_deref(), Some("Service"));
    assert_eq!(d.from.user, "noreply");
    assert_eq!(d.from.domain, "example.com");
    assert_eq!(d.to.name, None);
    assert_eq!(d.to.user, "ada");
    assert_eq!(d.to.domain, "example.com");
    let expected = "\n            <h1>Welcome, Ada!</h1>\n            <p>Your account has been created successfully.</p>\n             <p>Your temporary password is:</p>\n    <h2 style=\"background:#f4f4f4; padding:10px; color:#333;\">TEMP12345678</h2>  \n    <p>Use this to set your new password.</p>\n            ";
    assert_eq!(d.html_body, expected);
}

#[test]
fn reset_code_message_is_composed() {
    let d = forgot_password_email("noreply@example.com", "ada@example.com", "Ada", "CODE").ok().unwrap();
    assert_eq!(d.subject, "Reset Your Password \u{2014} Your Verification Code");
    assert!(d.html_body.contains("<p>Hi Ada,</p>"));
    assert!(d.html_body.contains(">CODE</h2>"));
    assert!(d.html_body.contains("This code expires in <strong>1 hour</strong>."));
    assert_eq!(d.from.user, "noreply");
    assert_eq!(d.to.user, "ada");
    let expected = "\n            <h1>Password Reset Request</h1>\n            <p>Hi Ada,</p>\n            <p>We received a request to reset your password.</p>\n            // CHANGED: \"token\" -> \"verification code\"\n            <p>Your verification code is:</p>\n            <h2 style=\"background:#f4f4f4; padding:10px; color:#333;\">CODE</h2>\n            // CHANGED: instruction updated to say \"code\" not \"token\"\n            <p>Submit this code to <strong>POST /auth/reset-password</strong> along with your new password.</p>\n            <p>This code expires in <strong>1 hour</strong>.</p>\n            <p>If you did not request this, ignore this email \u{2014} your password will not change.</p>\n            ";
    assert_eq!(d.html_body, expected);
}

#[test]
fn reset_notice_is_composed() {
    let d = reset_password_email("noreply@example.com", "ada@example.com", "Ada", "NEWPASS").ok().unwrap();
    assert_eq!(d.subject, "Your Password Has Been Reset");
    assert!(d.html_body.starts_with("\n            <h1>Password Reset</h1>\n            <p>Hi Ada,</p>"));
    assert!(d.html_body.contains(">NEWPASS</h2>"));
    assert_eq!((d.from.user.as_str(), d.to.user.as_str()), ("noreply", "ada"));
}

#[test]
fn bad_addresses_are_reported() {
    let e = welcome_email("not an address", "ada@example.com", "Ada", "x").err().unwrap();
    assert!(e.starts_with("Invalid from: "));
    let e = welcome_email("noreply@example.com", "nobody", "Ada", "x").err().unwrap();
    assert!(e.starts_with("Invalid to: "));
    let e = forgot_password_email("bad", "also bad", "Ada", "x").err().unwrap();
    assert!(e.starts_with("Invalid from: "));
}
