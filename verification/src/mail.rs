use vstd::prelude::*;
use vstd::string::StringExecFns;

verus! {

/// A mailbox as plain values: the optional display name, and the address's
/// local part and domain.
#[derive(Debug)]
pub struct Mailbox {
    pub name: Option<String>,
    pub user: String,
    pub domain: String,
}

/// The view of an optional text.
pub open spec fn optional_text(t: Option<String>) -> Option<Seq<char>> {
    match t {
        Some(s) => Some(s@),
        None => None,
    }
}

impl View for Mailbox {
    type V = (Option<Seq<char>>, Seq<char>, Seq<char>);

    open spec fn view(&self) -> (Option<Seq<char>>, Seq<char>, Seq<char>) {
        (optional_text(self.name), self.user@, self.domain@)
    }
}

#[verifier::external_type_specification]
#[verifier::external_body]
pub struct ExAddressError(lettre::address::AddressError);

/// What lettre reads a text as (`Name <user@domain>` or a bare address): the
/// display name, local part and domain, or `None` where it refuses the text.
pub uninterp spec fn mailbox_parse(text: Seq<char>) -> Option<(Option<Seq<char>>, Seq<char>, Seq<char>)>;

/// Calls `str::parse::<lettre::message::Mailbox>` (lettre's `FromStr`) and
/// reads the mailbox's name and the address's `user()` and `domain()`; the
/// answer is `mailbox_parse` of the text.
#[verifier::external_body]
fn parse_mailbox(text: &str) -> (parsed: Result<Mailbox, lettre::address::AddressError>)
    ensures
        parsed is Ok <==> mailbox_parse(text@) is Some,
        parsed matches Ok(m) ==> mailbox_parse(text@) == Some(m@),
{
    text.parse::<lettre::message::Mailbox>().map(|m| Mailbox {
        user: m.email.user().to_string(),
        domain: m.email.domain().to_string(),
        name: m.name,
    })
}

/// Whether lettre reads a text as a mailbox.
pub open spec fn mailbox_accepts(text: Seq<char>) -> bool {
    mailbox_parse(text) is Some
}

/// The text of a `lettre::address::AddressError` (its `Display`); nothing is
/// promised of it.
#[verifier::external_body]
fn address_error_text(e: &lettre::address::AddressError) -> String {
    e.to_string()
}

/// A message ready to be handed to the mail transport, sent as HTML.
#[derive(Debug)]
pub struct EmailDraft {
    pub from: Mailbox,
    pub to: Mailbox,
    pub subject: String,
    pub html_body: String,
}

/// `d` is addressed from the mailbox written `sender` to the one written `recipient`.
pub open spec fn addressed(d: EmailDraft, sender: Seq<char>, recipient: Seq<char>) -> bool {
    &&& mailbox_parse(sender) == Some(d.from@)
    &&& mailbox_parse(recipient) == Some(d.to@)
}

/// Why a message could not be addressed: `Invalid from: ...` or
/// `Invalid to: ...`, followed by the parser's complaint.
pub open spec fn address_refusal(prefix: Seq<char>, refusal: Seq<char>) -> bool {
    refusal.len() >= prefix.len() && refusal.subrange(0, prefix.len() as int) == prefix
}

/// Addresses a message from `sender` to `recipient`, checking the sender first.
fn address(sender: &str, recipient: &str, subject: String, html_body: String) -> (r: Result<EmailDraft, String>)
    ensures
        !mailbox_accepts(sender@) ==> (r matches Err(m) && address_refusal("Invalid from: "@, m@)),
        mailbox_accepts(sender@) && !mailbox_accepts(recipient@) ==> (r matches Err(m) && address_refusal("Invalid to: "@, m@)),
        mailbox_accepts(sender@) && mailbox_accepts(recipient@) ==> (r matches Ok(d) && addressed(d, sender@, recipient@) && d.subject@ == subject@ && d.html_body@ == html_body@),
{
    let from = match parse_mailbox(sender) {
        Ok(m) => m,
        Err(e) => {
            let prefix = String::from_str("Invalid from: ");
            let m = prefix.concat(address_error_text(&e).as_str());
            assert(m@.subrange(0, "Invalid from: "@.len() as int) =~= "Invalid from: "@);
            return Err(m);
        },
    };
    let to = match parse_mailbox(recipient) {
        Ok(m) => m,
        Err(e) => {
            let prefix = String::from_str("Invalid to: ");
            let m = prefix.concat(address_error_text(&e).as_str());
            assert(m@.subrange(0, "Invalid to: "@.len() as int) =~= "Invalid to: "@);
            return Err(m);
        },
    };
    Ok(EmailDraft { from, to, subject, html_body })
}

/// Body of the welcome message for `name` and `temp_password`.
pub open spec fn welcome_body(name: Seq<char>, temp_password: Seq<char>) -> Seq<char> {
    "\n            <h1>Welcome, "@ + name + "!</h1>\n            <p>Your account has been created successfully.</p>\n             <p>Your temporary password is:</p>\n    <h2 style=\"background:#f4f4f4; padding:10px; color:#333;\">"@ + temp_password + "</h2>  \n    <p>Use this to set your new password.</p>\n            "@
}

/// Subject of the welcome message.
pub open spec fn welcome_subject() -> Seq<char> {
    "Welcome to Auth Backend!.Your Temporary password"@
}

/// The welcome message to `to_email`, sent from `sender`: it greets the new account and hands over its temporary password.
pub fn welcome_email(sender: &str, to_email: &str, username: &str, temp_password: &str) -> (r: Result<EmailDraft, String>)
    ensures
        !mailbox_accepts(sender@) ==> (r matches Err(m) && address_refusal("Invalid from: "@, m@)),
        mailbox_accepts(sender@) && !mailbox_accepts(to_email@) ==> (r matches Err(m) && address_refusal("Invalid to: "@, m@)),
        mailbox_accepts(sender@) && mailbox_accepts(to_email@) ==> (r matches Ok(d) && addressed(d, sender@, to_email@)
            && d.subject@ == welcome_subject() && d.html_body@ == welcome_body(username@, temp_password@)),
{
    let body = String::from_str("\n            <h1>Welcome, ").concat(username).concat("!</h1>\n            <p>Your account has been created successfully.</p>\n             <p>Your temporary password is:</p>\n    <h2 style=\"background:#f4f4f4; padding:10px; color:#333;\">").concat(temp_password).concat("</h2>  \n    <p>Use this to set your new password.</p>\n            ");
    address(sender, to_email, String::from_str("Welcome to Auth Backend!.Your Temporary password"), body)
}

/// Body of the reset-code message for `name` and `reset_code`. The two lines
/// that open with `//` are part of the HTML text and are sent with it.
pub open spec fn reset_code_body(name: Seq<char>, reset_code: Seq<char>) -> Seq<char> {
    "\n            <h1>Password Reset Request</h1>\n            <p>Hi "@ + name + ",</p>\n            <p>We received a request to reset your password.</p>\n            // CHANGED: \"token\" -> \"verification code\"\n            <p>Your verification code is:</p>\n            <h2 style=\"background:#f4f4f4; padding:10px; color:#333;\">"@ + reset_code + "</h2>\n            // CHANGED: instruction updated to say \"code\" not \"token\"\n            <p>Submit this code to <strong>POST /auth/reset-password</strong> along with your new password.</p>\n            <p>This code expires in <strong>1 hour</strong>.</p>\n            <p>If you did not request this, ignore this email \u{2014} your password will not change.</p>\n            "@
}

/// Subject of the reset-code message.
pub open spec fn reset_code_subject() -> Seq<char> {
    "Reset Your Password \u{2014} Your Verification Code"@
}

/// The reset-code message to `to_email`, sent from `sender`: it hands over the code that resets the password and says it expires in one hour.
pub fn forgot_password_email(sender: &str, to_email: &str, username: &str, reset_code: &str) -> (r: Result<EmailDraft, String>)
    ensures
        !mailbox_accepts(sender@) ==> (r matches Err(m) && address_refusal("Invalid from: "@, m@)),
        mailbox_accepts(sender@) && !mailbox_accepts(to_email@) ==> (r matches Err(m) && address_refusal("Invalid to: "@, m@)),
        mailbox_accepts(sender@) && mailbox_accepts(to_email@) ==> (r matches Ok(d) && addressed(d, sender@, to_email@)
            && d.subject@ == reset_code_subject() && d.html_body@ == reset_code_body(username@, reset_code@)),
{
    let body = String::from_str("\n            <h1>Password Reset Request</h1>\n            <p>Hi ").concat(username).concat(",</p>\n            <p>We received a request to reset your password.</p>\n            // CHANGED: \"token\" -> \"verification code\"\n            <p>Your verification code is:</p>\n            <h2 style=\"background:#f4f4f4; padding:10px; color:#333;\">").concat(reset_code).concat("</h2>\n            // CHANGED: instruction updated to say \"code\" not \"token\"\n            <p>Submit this code to <strong>POST /auth/reset-password</strong> along with your new password.</p>\n            <p>This code expires in <strong>1 hour</strong>.</p>\n            <p>If you did not request this, ignore this email \u{2014} your password will not change.</p>\n            ");
    address(sender, to_email, String::from_str("Reset Your Password \u{2014} Your Verification Code"), body)
}

/// Body of the password-reset notice for `name` and `new_password`.
pub open spec fn new_password_body(name: Seq<char>, new_password: Seq<char>) -> Seq<char> {
    "\n            <h1>Password Reset</h1>\n            <p>Hi "@ + name + ",</p>\n            <p>Your password has been reset. Here is your new temporary password:</p>\n            <h2 style=\"color: #333; background: #f4f4f4; padding: 10px;\">"@ + new_password + "</h2>\n            <p>Please sign in and change it immediately.</p>\n            "@
}

/// Subject of the password-reset notice.
pub open spec fn new_password_subject() -> Seq<char> {
    "Your Password Has Been Reset"@
}

/// The password-reset notice to `to_email`, sent from `sender`: it hands over a new temporary password.
pub fn reset_password_email(sender: &str, to_email: &str, username: &str, new_password: &str) -> (r: Result<EmailDraft, String>)
    ensures
        !mailbox_accepts(sender@) ==> (r matches Err(m) && address_refusal("Invalid from: "@, m@)),
        mailbox_accepts(sender@) && !mailbox_accepts(to_email@) ==> (r matches Err(m) && address_refusal("Invalid to: "@, m@)),
        mailbox_accepts(sender@) && mailbox_accepts(to_email@) ==> (r matches Ok(d) && addressed(d, sender@, to_email@)
            && d.subject@ == new_password_subject() && d.html_body@ == new_password_body(username@, new_password@)),
{
    let body = String::from_str("\n            <h1>Password Reset</h1>\n            <p>Hi ").concat(username).concat(",</p>\n            <p>Your password has been reset. Here is your new temporary password:</p>\n            <h2 style=\"color: #333; background: #f4f4f4; padding: 10px;\">").concat(new_password).concat("</h2>\n            <p>Please sign in and change it immediately.</p>\n            ");
    address(sender, to_email, String::from_str("Your Password Has Been Reset"), body)
}

} // verus!
