use vstd::prelude::*;
use vstd::string::StringExecFns;
use crate::error::{status_of, AppError};
use crate::passwords::{generate_random_password, password_alphabet, RANDOM_PASSWORD_LEN};
use crate::text::{contains_bytes, has_infix};
use vstd::utf8::encode_utf8;

verus! {

/// A stored account. Times are microseconds since the Unix epoch; ids are
/// the 128-bit values of UUIDs.
#[derive(Debug)]
pub struct User {
    pub id: u128,
    pub username: String,
    pub email: String,
    /// Hash of the account's password; accounts made through Google have none.
    pub password: Option<String>,
    pub google_id: Option<String>,
    pub created_at: i64,
}

/// A stored password-reset code.
#[derive(Debug)]
pub struct PasswordResetToken {
    pub id: u128,
    pub user_id: u128,
    pub token: String,
    pub expires_at: i64,
    pub used: bool,
    pub created_at: i64,
}

/// What is shown of an account: everything but its credentials.
#[derive(Debug)]
pub struct UserResponse {
    pub id: u128,
    pub username: String,
    pub email: String,
    pub created_at: i64,
}

/// The answer to a successful sign-in: a session token and the account.
#[derive(Debug)]
pub struct AuthResponse {
    pub token: String,
    pub user: UserResponse,
}

impl From<User> for UserResponse {
    fn from(u: User) -> (r: UserResponse) {
        UserResponse { id: u.id, username: u.username, email: u.email, created_at: u.created_at }
    }
}

impl vstd::std_specs::convert::FromSpecImpl<User> for UserResponse {
    open spec fn obeys_from_spec() -> bool {
        true
    }

    open spec fn from_spec(u: User) -> UserResponse {
        UserResponse { id: u.id, username: u.username, email: u.email, created_at: u.created_at }
    }
}

/// One hour, in microseconds: how long a reset code stays usable.
pub const RESET_CODE_LIFETIME: i64 = 3_600_000_000;

/// A reset code that is still to be stored.
#[derive(Debug)]
pub struct NewPasswordResetToken {
    pub user_id: u128,
    pub token: String,
    pub expires_at: i64,
}

/// A reset code can be used at `now` when it has not been used and has not
/// yet expired.
pub open spec fn reset_code_usable(t: PasswordResetToken, now: int) -> bool {
    !t.used && t.expires_at > now
}

/// `t` is a stored code with text `code` that can be used at `now`.
pub open spec fn reset_code_matches(t: PasswordResetToken, code: Seq<char>, now: int) -> bool {
    t.token@ == code && reset_code_usable(t, now)
}

impl PasswordResetToken {
    /// A fresh code for an account, issued at `now`: random text from the
    /// password alphabet, expiring one hour later.
    pub fn create(user_id: u128, now: i64) -> (t: NewPasswordResetToken)
        requires
            now <= i64::MAX - RESET_CODE_LIFETIME,
        ensures
            t.user_id == user_id,
            t.expires_at == now + RESET_CODE_LIFETIME,
            t.token@.len() == RANDOM_PASSWORD_LEN,
            forall|i: int| 0 <= i < t.token@.len() ==> password_alphabet().contains(#[trigger] t.token@[i]),
    {
        NewPasswordResetToken {
            user_id,
            token: generate_random_password(),
            expires_at: now + RESET_CODE_LIFETIME,
        }
    }

    /// Whether this code can be used at `now`.
    pub fn is_usable_at(&self, now: i64) -> (usable: bool)
        ensures
            usable == reset_code_usable(*self, now as int),
    {
        !self.used && self.expires_at > now
    }

    /// Picks, among stored codes, the first one whose text is `code` and that
    /// can be used at `now`. Without one, the request is refused as bad
    /// credentials.
    pub fn find_valid(candidates: Vec<PasswordResetToken>, code: &String, now: i64) -> (found:
        Result<PasswordResetToken, AppError>)
        ensures
            found matches Ok(t) ==> exists|i: int|
                0 <= i < candidates@.len() && candidates@[i] == t && reset_code_matches(t, code@, now as int)
                    && forall|j: int| 0 <= j < i ==> !reset_code_matches(#[trigger] candidates@[j], code@, now as int),
            found is Err <==> forall|j: int| 0 <= j < candidates@.len() ==> !reset_code_matches(#[trigger] candidates@[j], code@, now as int),
            found matches Err(e) ==> e is InvalidCredentials,
    {
        let mut pool = candidates;
        let mut i: usize = 0;
        while i < pool.len()
            invariant
                pool@ == candidates@,
                i <= candidates@.len(),
                forall|j: int| 0 <= j < i ==> !reset_code_matches(#[trigger] candidates@[j], code@, now as int),
            decreases candidates@.len() - i,
        {
            if pool[i].token == *code && pool[i].is_usable_at(now) {
                let t = pool.swap_remove(i);
                assert(candidates@[i as int] == t && reset_code_matches(candidates@[i as int], code@, now as int));
                return Ok(t);
            }
            i = i + 1;
        }
        Err(AppError::InvalidCredentials)
    }

    /// Marks as used every stored code whose text is `code`, leaving the
    /// others as they are.
    pub fn mark_used(rows: &mut Vec<PasswordResetToken>, code: &String)
        ensures
            final(rows)@ == spent_rows(old(rows)@, code@),
    {
        let ghost before = rows@;
        let mut i: usize = 0;
        while i < rows.len()
            invariant
                rows@.len() == before.len(),
                i <= before.len(),
                forall|j: int| 0 <= j < i ==> rows@[j] == #[trigger] spent_rows(before, code@)[j],
                forall|j: int| i <= j < before.len() ==> rows@[j] == #[trigger] before[j],
            decreases before.len() - i,
        {
            if rows[i].token == *code {
                let t = PasswordResetToken {
                    id: rows[i].id,
                    user_id: rows[i].user_id,
                    token: rows[i].token.clone(),
                    expires_at: rows[i].expires_at,
                    used: true,
                    created_at: rows[i].created_at,
                };
                rows.set(i, t);
            }
            i = i + 1;
        }
        assert(rows@ =~= spent_rows(before, code@));
    }
}

/// The stored codes after those with text `code` are marked used.
pub open spec fn spent_rows(rows: Seq<PasswordResetToken>, code: Seq<char>) -> Seq<PasswordResetToken> {
    Seq::new(
        rows.len(),
        |i: int|
            if rows[i].token@ == code {
                PasswordResetToken { used: true, ..rows[i] }
            } else {
                rows[i]
            },
    )
}

/// A reset code works at most once: once the codes with its text are marked
/// used, none of them matches it again, at any time.
pub proof fn spent_code_never_matches(rows: Seq<PasswordResetToken>, code: Seq<char>, now: int)
    ensures
        forall|j: int| 0 <= j < rows.len() ==> !reset_code_matches(#[trigger] spent_rows(rows, code)[j], code, now),
{
}

/// A code issued at `issued` and not yet used can be used exactly until one
/// hour has passed.
pub proof fn fresh_code_lasts_one_hour(t: PasswordResetToken, issued: int, now: int)
    requires
        !t.used,
        t.expires_at == issued + RESET_CODE_LIFETIME,
    ensures
        reset_code_usable(t, now) <==> now < issued + RESET_CODE_LIFETIME,
{
}

/// A code that has been used can never be used again, whatever the time.
pub proof fn used_code_is_spent(t: PasswordResetToken, now: int)
    requires
        t.used,
    ensures
        !reset_code_usable(t, now),
{
}

/// A failure reported by the database for a statement.
#[derive(Debug)]
pub struct DatabaseFailure {
    /// The database's own message, when the failure came from the database
    /// server rather than from the connection or the driver.
    pub database_message: Option<String>,
    /// The failure's full description.
    pub text: String,
}

/// Name of the uniqueness rule on account e-mail addresses.
pub open spec fn email_key_name() -> Seq<char> {
    "users_email_key"@
}

/// How a failed account insertion is answered: a breach of the unique e-mail
/// rule means the address is taken; anything else is a database failure.
pub open spec fn insert_failure_answer(f: DatabaseFailure) -> AppError {
    match f.database_message {
        Some(m) => if has_infix(encode_utf8(m@), encode_utf8(email_key_name())) {
            AppError::EmailTaken
        } else {
            AppError::Database(f.text)
        },
        None => AppError::Database(f.text),
    }
}

/// A failed account insertion is answered with 409 when it breached the
/// unique e-mail rule, and with 500 otherwise.
pub proof fn insert_failure_status(f: DatabaseFailure)
    ensures
        status_of(insert_failure_answer(f)) == 409 || status_of(insert_failure_answer(f)) == 500,
        status_of(insert_failure_answer(f)) == 409 <==> (f.database_message matches Some(m)
            && has_infix(encode_utf8(m@), encode_utf8(email_key_name()))),
{
}

/// What a lookup of one row answers: a missing row is refused as not found,
/// a failing lookup keeps its refusal.
pub open spec fn row_answer(fetched: Result<Option<User>, AppError>) -> Result<User, AppError> {
    match fetched {
        Ok(Some(u)) => Ok(u),
        Ok(None) => Err(AppError::NotFound),
        Err(e) => Err(e),
    }
}

/// A lookup that fetched a row answers exactly that row, whatever the row
/// holds; only a lookup that found no row is refused as not found, and a
/// failing lookup keeps its own refusal.
pub proof fn fetched_row_is_the_answer(fetched: Result<Option<User>, AppError>, r: Result<User, AppError>)
    requires
        r == row_answer(fetched),
    ensures
        fetched matches Ok(Some(u)) ==> r == Ok::<User, AppError>(u),
        r == Err::<User, AppError>(AppError::NotFound) ==> (fetched == Ok::<Option<User>, AppError>(None)
            || fetched == Err::<Option<User>, AppError>(AppError::NotFound)),
        fetched matches Err(e) ==> r == Err::<User, AppError>(e),
{
}

fn require_row(fetched: Result<Option<User>, AppError>) -> (r: Result<User, AppError>)
    ensures
        r == row_answer(fetched),
        fetched matches Ok(Some(u)) ==> r == Ok::<User, AppError>(u),
        fetched matches Ok(None) ==> r == Err::<User, AppError>(AppError::NotFound),
        fetched matches Err(e) ==> r == Err::<User, AppError>(e),
{
    match fetched {
        Ok(Some(u)) => Ok(u),
        Ok(None) => Err(AppError::NotFound),
        Err(e) => Err(e),
    }
}

/// An account to be made for a Google sign-in.
#[derive(Debug)]
pub struct NewGoogleUser {
    pub email: String,
    pub username: String,
    pub google_id: String,
}

/// What a Google sign-in does with the account store.
#[derive(Debug)]
pub enum GoogleAccount {
    /// An account already carries the Google id: it is used as it is.
    Existing(User),
    /// No account carries it: this one is made.
    Create(NewGoogleUser),
}

impl User {
    /// Answer to inserting an account: the stored account, or the refusal
    /// its failure calls for.
    pub fn create(inserted: Result<User, DatabaseFailure>) -> (r: Result<User, AppError>)
        ensures
            inserted matches Ok(u) ==> r == Ok::<User, AppError>(u),
            inserted matches Err(f) ==> r == Err::<User, AppError>(insert_failure_answer(f)),
    {
        match inserted {
            Ok(u) => Ok(u),
            Err(f) => {
                let taken = match &f.database_message {
                    Some(m) => contains_bytes(m.as_str().as_bytes(), "users_email_key".as_bytes()),
                    None => false,
                };
                if taken {
                    Err(AppError::EmailTaken)
                } else {
                    Err(AppError::Database(f.text))
                }
            },
        }
    }

    /// Answer to looking an account up by e-mail address.
    pub fn find_by_email(fetched: Result<Option<User>, AppError>) -> (r: Result<User, AppError>)
        ensures
            r == row_answer(fetched),
            fetched matches Ok(Some(u)) ==> r == Ok::<User, AppError>(u),
            fetched matches Ok(None) ==> r == Err::<User, AppError>(AppError::NotFound),
            fetched matches Err(e) ==> r == Err::<User, AppError>(e),
    {
        require_row(fetched)
    }

    /// Answer to looking an account up by id.
    pub fn find_by_id(fetched: Result<Option<User>, AppError>) -> (r: Result<User, AppError>)
        ensures
            r == row_answer(fetched),
            fetched matches Ok(Some(u)) ==> r == Ok::<User, AppError>(u),
            fetched matches Ok(None) ==> r == Err::<User, AppError>(AppError::NotFound),
            fetched matches Err(e) ==> r == Err::<User, AppError>(e),
    {
        require_row(fetched)
    }

    /// Answer to replacing the password of the account with an e-mail address.
    pub fn reset_password(updated: Result<Option<User>, AppError>) -> (r: Result<User, AppError>)
        ensures
            r == row_answer(updated),
            updated matches Ok(Some(u)) ==> r == Ok::<User, AppError>(u),
            updated matches Ok(None) ==> r == Err::<User, AppError>(AppError::NotFound),
            updated matches Err(e) ==> r == Err::<User, AppError>(e),
    {
        require_row(updated)
    }

    /// What a Google sign-in does: an account that already carries the Google
    /// id is used unchanged; otherwise an account is made with the profile's
    /// e-mail, name and Google id.
    pub fn find_or_create_google_user(
        existing: Option<User>,
        google_id: &str,
        email: &str,
        username: &str,
    ) -> (plan: GoogleAccount)
        ensures
            existing matches Some(u) ==> plan == GoogleAccount::Existing(u),
            existing is None ==> (plan matches GoogleAccount::Create(n) && n.email@ == email@
                && n.username@ == username@ && n.google_id@ == google_id@),
    {
        match existing {
            Some(u) => GoogleAccount::Existing(u),
            None => GoogleAccount::Create(
                NewGoogleUser {
                    email: String::from_str(email),
                    username: String::from_str(username),
                    google_id: String::from_str(google_id),
                },
            ),
        }
    }
}

} // verus!
