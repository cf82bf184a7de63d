use vstd::prelude::*;
use crate::error::AppError;

verus! {

/// The `k`-th hexadecimal digit (most significant first) of a 128-bit id.
pub open spec fn id_nibble(id: u128, k: int) -> int {
    (id as int / vstd::arithmetic::power2::pow2((4 * (31 - k)) as nat) as int) % 16
}

/// Lower-case character of a hexadecimal digit.
pub open spec fn hex_char(d: int) -> char {
    if d < 10 {
        (48 + d) as char
    } else {
        (87 + d) as char
    }
}

/// Which hexadecimal digit stands at position `i` of the hyphenated form.
pub open spec fn digit_at(i: int) -> int {
    if i < 8 {
        i
    } else if i < 13 {
        i - 1
    } else if i < 18 {
        i - 2
    } else if i < 23 {
        i - 3
    } else {
        i - 4
    }
}

/// The hyphenated lower-case form of an id, `xxxxxxxx-xxxx-xxxx-xxxx-xxxxxxxxxxxx`.
pub open spec fn uuid_text(id: u128) -> Seq<char> {
    Seq::new(
        36,
        |i: int|
            if i == 8 || i == 13 || i == 18 || i == 23 {
                '-'
            } else {
                hex_char(id_nibble(id, digit_at(i)))
            },
    )
}

/// What `uuid::Uuid::parse_str` makes of a text: the id's 128-bit value, or
/// `None` where it refuses the text.
pub uninterp spec fn uuid_parse(text: Seq<char>) -> Option<u128>;

/// Calls `uuid::Uuid::parse_str` and reads the id as a 128-bit number
/// (`as_u128`). Its answer is `uuid_parse` of the text; the hyphenated form of
/// an id, which the parser accepts, gives that id back.
#[verifier::external_body]
fn parse_uuid(text: &str) -> (id: Option<u128>)
    ensures
        id == uuid_parse(text@),
        forall|u: u128| text@ == uuid_text(u) ==> id == Some(u),
{
    uuid::Uuid::parse_str(text).ok().map(|u| u.as_u128())
}

/// Calls `uuid::Uuid::from_u128(id).to_string()`, the hyphenated lower-case form.
#[verifier::external_body]
fn uuid_to_string(id: u128) -> (text: String)
    ensures
        text@ == uuid_text(id),
{
    uuid::Uuid::from_u128(id).to_string()
}

/// The subject a session token names for an account: the hyphenated form of its id.
pub fn token_subject(user_id: u128) -> (subject: String)
    ensures
        subject@ == uuid_text(user_id),
{
    uuid_to_string(user_id)
}

/// The account id a session token's subject names. A subject that is not an
/// id is refused as bad credentials; the subject written by `token_subject`
/// gives its account back.
pub fn user_id_from_subject(subject: &str) -> (id: Result<u128, AppError>)
    ensures
        uuid_parse(subject@) matches Some(u) ==> id == Ok::<u128, AppError>(u),
        uuid_parse(subject@) is None ==> id == Err::<u128, AppError>(AppError::InvalidCredentials),
        forall|u: u128| subject@ == uuid_text(u) ==> id == Ok::<u128, AppError>(u),
{
    match parse_uuid(subject) {
        Some(u) => Ok(u),
        None => Err(AppError::InvalidCredentials),
    }
}

} // verus!
