use vstd::prelude::*;
use crate::error::AppError;
use crate::ids::{user_id_from_subject, uuid_parse, uuid_text};
use crate::text::push_char;

verus! {

/// A header byte counts as text when it is visible ASCII or a tab.
pub open spec fn visible_ascii(b: u8) -> bool {
    (32 <= b && b < 127) || b == 9
}

/// The bytes of `Bearer ` (with its space), which open an authorization header.
pub open spec fn bearer_prefix() -> Seq<u8> {
    seq![66u8, 101u8, 97u8, 114u8, 101u8, 114u8, 32u8]
}

/// The token an authorization header carries: the header must be present,
/// text, and open with `Bearer `; the token is what follows.
pub open spec fn bearer_of(header: Option<Seq<u8>>) -> Option<Seq<u8>> {
    match header {
        None => None,
        Some(h) => if (forall|i: int| 0 <= i < h.len() ==> visible_ascii(#[trigger] h[i]))
            && h.len() >= 7 && h.subrange(0, 7) == bearer_prefix() {
            Some(h.subrange(7, h.len() as int))
        } else {
            None
        },
    }
}

/// Characters of ASCII bytes.
pub open spec fn ascii_text(bytes: Seq<u8>) -> Seq<char> {
    Seq::new(bytes.len(), |i: int| bytes[i] as char)
}

/// The view of an optional header value.
pub open spec fn header_view(header: Option<Vec<u8>>) -> Option<Seq<u8>> {
    match header {
        None => None,
        Some(v) => Some(v@),
    }
}

/// The answers `bearer_token` gives for a header's bytes.
pub open spec fn bearer_answer(header: Option<Seq<u8>>, r: Result<String, AppError>) -> bool {
    match bearer_of(header) {
        Some(t) => r matches Ok(s) && s@ == ascii_text(t),
        None => r == Err::<String, AppError>(AppError::InvalidCredentials),
    }
}

/// Reads the session token from an `Authorization` header value. A missing
/// header, one that is not text, or one that does not open with `Bearer `
/// is refused as bad credentials.
pub fn bearer_token(header: Option<Vec<u8>>) -> (token: Result<String, AppError>)
    ensures
        bearer_of(header_view(header)) matches Some(t) ==> (token matches Ok(s) && s@ == ascii_text(t)),
        bearer_of(header_view(header)) is None ==> token == Err::<String, AppError>(AppError::InvalidCredentials),
        token matches Ok(s) ==> (header matches Some(h) && h@.len() >= 7 && h@.subrange(0, 7) == bearer_prefix()
            && s@.len() == h@.len() - 7 && forall|k: int| 0 <= k < s@.len() ==> #[trigger] s@[k] as int == h@[7 + k] as int),
        bearer_answer(header_view(header), token),
{
    let ghost hv = header_view(header);
    let h = match header {
        None => return Err(AppError::InvalidCredentials),
        Some(h) => h,
    };
    let n = h.len();
    let mut i: usize = 0;
    while i < n
        invariant
            n == h@.len(),
            hv == Some(h@),
            hv == header_view(header),
            i <= n,
            forall|k: int| 0 <= k < i ==> visible_ascii(#[trigger] h@[k]),
        decreases n - i,
    {
        let b = h[i];
        if !((32 <= b && b < 127) || b == 9) {
            assert(!visible_ascii(h@[i as int]));
            return Err(AppError::InvalidCredentials);
        }
        i = i + 1;
    }
    let prefix: [u8; 7] = [66u8, 101u8, 97u8, 114u8, 101u8, 114u8, 32u8];
    if n < 7 {
        return Err(AppError::InvalidCredentials);
    }
    let mut k: usize = 0;
    while k < 7
        invariant
            n == h@.len(),
            n >= 7,
            hv == Some(h@),
            hv == header_view(header),
            k <= 7,
            prefix@ == bearer_prefix(),
            forall|m: int| 0 <= m < k ==> h@[m] == bearer_prefix()[m],
        decreases 7 - k,
    {
        if h[k] != prefix[k] {
            assert(h@.subrange(0, 7)[k as int] != bearer_prefix()[k as int]);
            assert(bearer_of(hv) is None);
            return Err(AppError::InvalidCredentials);
        }
        k = k + 1;
    }
    assert(h@.subrange(0, 7) =~= bearer_prefix());
    let mut token = String::new();
    let mut j: usize = 7;
    while j < n
        invariant
            n == h@.len(),
            7 <= j <= n,
            hv == Some(h@),
            hv == header_view(header),
            token@ =~= ascii_text(h@.subrange(7, j as int)),
        decreases n - j,
    {
        let c = h[j] as char;
        push_char(&mut token, c);
        j = j + 1;
    }
    Ok(token)
}

/// The token read from an authorization header is the header's text after
/// `Bearer `, character for byte: the header opens with those seven bytes,
/// and the token has one character for each following byte, with that
/// byte's code. Without such a header the request is refused.
pub proof fn bearer_token_is_rest_of_header(header: Option<Seq<u8>>, r: Result<String, AppError>)
    requires
        bearer_answer(header, r),
    ensures
        r matches Ok(s) ==> (header matches Some(h) && h.len() >= 7 && h.subrange(0, 7) == bearer_prefix()
            && s@.len() == h.len() - 7 && forall|k: int| 0 <= k < s@.len() ==> #[trigger] s@[k] as int == h[7 + k] as int),
        r is Err ==> r == Err::<String, AppError>(AppError::InvalidCredentials),
        (header matches Some(h) && h.len() >= 7 && h.subrange(0, 7) == bearer_prefix()
            && forall|i: int| 0 <= i < h.len() ==> visible_ascii(#[trigger] h[i])) ==> r is Ok,
{
}

/// The account a request is made for, once its session token has been
/// checked: a token that failed the check (`None`) is refused as bad
/// credentials, and so is a subject that names no account id.
pub fn session_user(checked_subject: Option<String>) -> (id: Result<u128, AppError>)
    ensures
        checked_subject is None ==> id == Err::<u128, AppError>(AppError::InvalidCredentials),
        checked_subject matches Some(s) ==> (uuid_parse(s@) matches Some(u) ==> id == Ok::<u128, AppError>(u)),
        checked_subject matches Some(s) ==> (uuid_parse(s@) is None ==> id == Err::<u128, AppError>(AppError::InvalidCredentials)),
        checked_subject matches Some(s) ==> forall|u: u128| s@ == uuid_text(u) ==> id == Ok::<u128, AppError>(u),
{
    match checked_subject {
        None => Err(AppError::InvalidCredentials),
        Some(s) => user_id_from_subject(s.as_str()),
    }
}

} // verus!
