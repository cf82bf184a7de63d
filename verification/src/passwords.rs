use vstd::prelude::*;
use vstd::string::StrSliceExecFns;
use crate::error::AppError;
use crate::text::push_char;

verus! {

#[verifier::external_type_specification]
#[verifier::external_body]
pub struct ExBcryptError(bcrypt::BcryptError);

/// What `bcrypt::verify` answers for a password and a stored hash: `None`
/// when it fails (a malformed hash), otherwise whether they match.
pub uninterp spec fn bcrypt_verify_outcome(password: Seq<char>, hash: Seq<char>) -> Option<bool>;

/// The text of a salt failure of `bcrypt::hash`: the `Display` text of a
/// `bcrypt::BcryptError` (as `to_string` writes it), and of its `Rand`
/// variant, which bcrypt writes as `Rand error: ` followed by the cause.
pub open spec fn salt_failure_text(t: String) -> bool {
    &&& t@.len() >= 12
    &&& t@.subrange(0, 12) == "Rand error: "@
    &&& exists|e: bcrypt::BcryptError| vstd::string::to_string_from_display_ensures::<bcrypt::BcryptError>(&e, t)
}

/// Calls `bcrypt::hash` with the crate's `DEFAULT_COST`, handing a failure
/// back as the error's text (`to_string`). The salt is random, so no
/// particular hash is promised; an `Ok` hash is the 60-character formatted
/// string, and `bcrypt::verify` accepts the same password against it (verify
/// re-hashes the password with the salt and cost read back from the hash).
/// At `DEFAULT_COST` the cost is allowed and `hash` truncates rather than
/// refuses long passwords, so the only failure is the operating system's
/// random source failing to give a salt (`BcryptError::Rand`, written
/// `Rand error: ...`); whether that happens is left open.
#[verifier::external_body]
fn bcrypt_hash_default_cost(password: &str) -> (hashed: Result<String, String>)
    ensures
        hashed matches Ok(h) ==> h@.len() == 60,
        hashed matches Ok(h) ==> bcrypt_verify_outcome(password@, h@) == Some(true),
        hashed matches Err(t) ==> salt_failure_text(t),
{
    bcrypt::hash(password, bcrypt::DEFAULT_COST).map_err(|e| e.to_string())
}

/// Calls `bcrypt::verify`; its answer is `bcrypt_verify_outcome` of the two
/// texts, and a hash that is not 60 bytes long is always refused as malformed.
#[verifier::external_body]
fn bcrypt_verify(password: &str, hash: &str) -> (checked: Result<bool, bcrypt::BcryptError>)
    ensures
        checked matches Ok(b) ==> bcrypt_verify_outcome(password@, hash@) == Some(b),
        checked is Err ==> bcrypt_verify_outcome(password@, hash@) is None,
        vstd::utf8::encode_utf8(hash@).len() != 60 ==> checked is Err,
{
    bcrypt::verify(password, hash)
}

/// The text of a `bcrypt::BcryptError` (its `Display`); nothing is promised of it.
#[verifier::external_body]
fn bcrypt_error_text(e: &bcrypt::BcryptError) -> String {
    e.to_string()
}

/// Calls `rand::rng().random_range(0..bound)`: a uniformly drawn number
/// below `bound`; which one is left to chance.
#[verifier::external_body]
fn random_below(bound: usize) -> (r: usize)
    requires
        bound > 0,
    ensures
        r < bound,
{
    rand::RngExt::random_range(&mut rand::rng(), 0..bound)
}

/// The characters a generated password is drawn from.
pub open spec fn password_alphabet() -> Seq<char> {
    "ABCDEFGHIJKLMNOPQRSTUVWXYZabcdefghijklmnopqrstuvwxyz0123456789"@
}

/// Length of a generated password.
pub const RANDOM_PASSWORD_LEN: usize = 12;

/// The password spelled by a sequence of draws: the `i`-th character is the
/// alphabet's character at the `i`-th draw.
pub open spec fn spelled(draws: Seq<usize>) -> Seq<char> {
    Seq::new(draws.len(), |i: int| password_alphabet()[draws[i] as int])
}

/// Spells out a password from draws, each an index into the alphabet.
pub fn password_from_draws(draws: &Vec<usize>) -> (password: String)
    requires
        forall|i: int| 0 <= i < draws@.len() ==> #[trigger] draws@[i] < password_alphabet().len(),
    ensures
        password@ == spelled(draws@),
{
    let charset = "ABCDEFGHIJKLMNOPQRSTUVWXYZabcdefghijklmnopqrstuvwxyz0123456789";
    proof {
        reveal_strlit("ABCDEFGHIJKLMNOPQRSTUVWXYZabcdefghijklmnopqrstuvwxyz0123456789");
    }
    let mut password = String::new();
    let mut k: usize = 0;
    while k < draws.len()
        invariant
            k <= draws@.len(),
            charset@ == password_alphabet(),
            charset@.len() == 62,
            forall|i: int| 0 <= i < draws@.len() ==> #[trigger] draws@[i] < password_alphabet().len(),
            password@ =~= spelled(draws@.subrange(0, k as int)),
        decreases draws@.len() - k,
    {
        let c = charset.get_char(draws[k]);
        push_char(&mut password, c);
        k = k + 1;
    }
    assert(draws@.subrange(0, draws@.len() as int) =~= draws@);
    password
}

/// A fresh random password: twelve characters, each drawn uniformly from
/// `password_alphabet`; the password is what `password_from_draws` spells
/// from the draws.
pub fn generate_random_password() -> (password: String)
    ensures
        password@.len() == RANDOM_PASSWORD_LEN,
        forall|i: int| 0 <= i < password@.len() ==> password_alphabet().contains(#[trigger] password@[i]),
{
    proof {
        reveal_strlit("ABCDEFGHIJKLMNOPQRSTUVWXYZabcdefghijklmnopqrstuvwxyz0123456789");
    }
    let mut draws: Vec<usize> = Vec::new();
    while draws.len() < RANDOM_PASSWORD_LEN
        invariant
            draws@.len() <= RANDOM_PASSWORD_LEN,
            password_alphabet().len() == 62,
            forall|i: int| 0 <= i < draws@.len() ==> #[trigger] draws@[i] < password_alphabet().len(),
        decreases RANDOM_PASSWORD_LEN - draws@.len(),
    {
        draws.push(random_below(62));
    }
    let password = password_from_draws(&draws);
    assert forall|i: int| 0 <= i < password@.len() implies password_alphabet().contains(#[trigger] password@[i]) by {
        assert(password@[i] == password_alphabet()[draws@[i] as int]);
    }
    password
}

/// Hashes a password for storage. On success the stored hash verifies the
/// password; on failure the refusal is a hashing failure.
pub fn hash_password(password: &str) -> (hashed: Result<String, AppError>)
    ensures
        hashed matches Ok(h) ==> bcrypt_verify_outcome(password@, h@) == Some(true),
        hashed matches Err(e) ==> e is Bcrypt,
        hashed matches Err(e) ==> (e matches AppError::Bcrypt(t) && salt_failure_text(t)),
{
    match bcrypt_hash_default_cost(password) {
        Ok(h) => Ok(h),
        Err(t) => Err(AppError::Bcrypt(t)),
    }
}

/// What checking `password` against a stored hash gives: `None` for a
/// hashing failure, otherwise whether the password matches. An account with
/// no stored password matches nothing.
pub open spec fn password_check(password: Seq<char>, stored: Option<String>) -> Option<bool> {
    match stored {
        None => Some(false),
        Some(h) => bcrypt_verify_outcome(password, h@),
    }
}

/// Checks a password against the stored hash of an account.
pub fn check_password(password: &str, stored: &Option<String>) -> (matched: Result<bool, AppError>)
    ensures
        password_check(password@, *stored) matches Some(b) ==> matched == Ok::<bool, AppError>(b),
        password_check(password@, *stored) is None ==> (matched matches Err(e) && e is Bcrypt),
{
    match stored {
        None => Ok(false),
        Some(h) => match bcrypt_verify(password, h.as_str()) {
            Ok(b) => Ok(b),
            Err(e) => Err(AppError::Bcrypt(bcrypt_error_text(&e))),
        },
    }
}

} // verus!
