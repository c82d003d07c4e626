//! Basic authentication of the operator of the bank.

use base64::Engine;
use vstd::prelude::*;
use vstd::string::*;
use vstd::utf8::{decode_utf8, valid_utf8};

verus! {

/// The name and the password that a request carries.
pub struct Credentials {
    pub username: String,
    pub password: String,
}

/// `Credentials` as contracts see them.
pub struct CredentialsView {
    pub username: Seq<char>,
    pub password: Seq<char>,
}

impl View for Credentials {
    type V = CredentialsView;

    open spec fn view(&self) -> CredentialsView {
        CredentialsView { username: self.username@, password: self.password@ }
    }
}

/// Why a request carries no credentials.
#[derive(Debug, Clone, Copy, PartialEq, Eq, Structural)]
pub enum AuthError {
    /// There is no `Authorization` header.
    MissingHeader,
    /// The header is not plain text.
    NotText,
    /// The authorization scheme is not `Basic`.
    NotBasic,
    /// What follows the scheme is not base64.
    NotBase64,
    /// The decoded credentials are not UTF-8.
    NotUtf8,
    /// The decoded credentials hold no colon, and so no password.
    NoPassword,
}

/// The name of the scheme.
pub open spec fn scheme() -> Seq<char> {
    seq!['B', 'a', 's', 'i', 'c']
}

/// White space, as far as it occurs in plain text.
pub open spec fn is_space(c: char) -> bool {
    c == ' ' || ('\t' <= c && c <= '\r')
}

/// Does `s` begin with the name of the scheme?
pub open spec fn has_scheme(s: Seq<char>) -> bool {
    s.len() >= 5 && s.subrange(0, 5) == scheme()
}

/// Is `k` where the white space at the beginning of `s` ends?
pub open spec fn is_start(s: Seq<char>, k: int) -> bool {
    &&& 0 <= k <= s.len()
    &&& forall|j: int| 0 <= j < k ==> is_space(#[trigger] s[j])
    &&& k < s.len() ==> !is_space(s[k])
}

/// Is `e` where the white space at the end of `s` begins, not before `k`?
pub open spec fn is_end(s: Seq<char>, k: int, e: int) -> bool {
    &&& k <= e <= s.len()
    &&& forall|j: int| e <= j < s.len() ==> is_space(#[trigger] s[j])
    &&& k < e ==> !is_space(s[e - 1])
}

/// `s` without the white space at its beginning and at its end.
pub open spec fn trimmed(s: Seq<char>) -> Seq<char> {
    let k = choose|k: int| is_start(s, k);
    let e = choose|e: int| is_end(s, k, e);
    s.subrange(k, e)
}

/// Is `i` the position of the first colon in `s`?
pub open spec fn is_first_colon(s: Seq<char>, i: int) -> bool {
    &&& 0 <= i < s.len()
    &&& s[i] == ':'
    &&& forall|j: int| 0 <= j < i ==> #[trigger] s[j] != ':'
}

/// The credentials that a text of the form `name:password` holds: the name
/// ends at the first colon.
pub open spec fn split_credentials(text: Seq<char>) -> Result<CredentialsView, AuthError> {
    if exists|i: int| is_first_colon(text, i) {
        let i = choose|i: int| is_first_colon(text, i);
        Ok(CredentialsView { username: text.take(i), password: text.skip(i + 1) })
    } else {
        Err(AuthError::NoPassword)
    }
}

/// The bytes that the standard base64 alphabet, with padding, decodes a text
/// to; `None` for a text that is not base64.
pub uninterp spec fn base64_decoding(input: Seq<char>) -> Option<Seq<u8>>;

/// Calls `base64::engine::general_purpose::STANDARD.decode`, which decodes
/// its input or reports why it is not base64.
#[verifier::external_body]
fn decode_base64(input: &str) -> (r: Option<Vec<u8>>)
    ensures
        match r {
            Some(bytes) => base64_decoding(input@) == Some(bytes@),
            None => base64_decoding(input@) is None,
        },
{
    match base64::engine::general_purpose::STANDARD.decode(input) {
        Ok(bytes) => Some(bytes),
        Err(_) => None,
    }
}

/// Calls `String::from_utf8`, which turns bytes that are valid UTF-8 into the
/// string that they encode and refuses all others.
#[verifier::external_body]
fn string_from_utf8(bytes: Vec<u8>) -> (r: Option<String>)
    ensures
        match r {
            Some(s) => valid_utf8(bytes@) && s@ == decode_utf8(bytes@),
            None => !valid_utf8(bytes@),
        },
{
    match String::from_utf8(bytes) {
        Ok(s) => Some(s),
        Err(_) => None,
    }
}

/// The credentials that decoded bytes hold: they must be the UTF-8 of a text
/// of the form `name:password`.
pub open spec fn decoded_credentials(bytes: Seq<u8>) -> Result<CredentialsView, AuthError> {
    if !valid_utf8(bytes) {
        Err(AuthError::NotUtf8)
    } else {
        split_credentials(decode_utf8(bytes))
    }
}

/// The credentials that the value of an `Authorization` header carries: the
/// scheme `Basic`, then, set off by white space, the base64 of `name:password`.
pub open spec fn basic_authentication_spec(header: Option<Seq<char>>) -> Result<
    CredentialsView,
    AuthError,
> {
    match header {
        None => Err(AuthError::MissingHeader),
        Some(value) => if !vstd::utf8::is_ascii_chars(value) {
            Err(AuthError::NotText)
        } else if !has_scheme(value) {
            Err(AuthError::NotBasic)
        } else {
            match base64_decoding(trimmed(value.skip(5))) {
                None => Err(AuthError::NotBase64),
                Some(bytes) => decoded_credentials(bytes),
            }
        },
    }
}

/// Splits `name:password` at the first colon.
pub fn credentials_from_text(text: &str) -> (r: Result<Credentials, AuthError>)
    ensures
        match r {
            Ok(c) => split_credentials(text@) == Ok::<CredentialsView, AuthError>(c@),
            Err(e) => split_credentials(text@) == Err::<CredentialsView, AuthError>(e),
        },
{
    let n = text.unicode_len();
    let mut i: usize = 0;
    while i < n
        invariant
            i <= n,
            n == text@.len(),
            forall|j: int| 0 <= j < i ==> #[trigger] text@[j] != ':',
        decreases n - i,
    {
        if text.get_char(i) == ':' {
            proof {
                assert(is_first_colon(text@, i as int));
                let k = choose|k: int| is_first_colon(text@, k);
                assert(k == i);
            }
            let username = String::from_str(text.substring_char(0, i));
            let password = String::from_str(text.substring_char(i + 1, n));
            proof {
                assert(text@.subrange(0, i as int) =~= text@.take(i as int));
                assert(text@.subrange(i + 1, n as int) =~= text@.skip(i + 1));
            }
            return Ok(Credentials { username, password });
        }
        i += 1;
    }
    Err(AuthError::NoPassword)
}

/// Reads the credentials that decoded bytes hold.
pub fn credentials_from_bytes(bytes: Vec<u8>) -> (r: Result<Credentials, AuthError>)
    ensures
        match r {
            Ok(c) => decoded_credentials(bytes@) == Ok::<CredentialsView, AuthError>(c@),
            Err(e) => decoded_credentials(bytes@) == Err::<CredentialsView, AuthError>(e),
        },
{
    match string_from_utf8(bytes) {
        Some(text) => credentials_from_text(text.as_str()),
        None => Err(AuthError::NotUtf8),
    }
}

/// What stands between the white space at the beginning and at the end of
/// `value` from position `from` on.
fn trim_from(value: &str, from: usize) -> (r: &str)
    requires
        is_ascii(value),
        from <= value@.len(),
    ensures
        r@ == trimmed(value@.skip(from as int)),
{
    proof {
        vstd::utf8::is_ascii_chars_encode_utf8(value@);
    }
    let bytes = value.as_bytes();
    let n = bytes.len();
    let ghost rest = value@.skip(from as int);
    let mut start: usize = from;
    while start < n && is_space_byte(bytes[start])
        invariant
            from <= start <= n,
            n == value@.len(),
            bytes@ == value.spec_bytes(),
            is_ascii(value),
            forall|j: int| 0 <= j < n ==> value@[j] as u8 == #[trigger] bytes@[j],
            rest == value@.skip(from as int),
            forall|j: int| 0 <= j < start - from ==> is_space(#[trigger] rest[j]),
        decreases n - start,
    {
        assert(rest[start - from] == value@[start as int]);
        start += 1;
    }
    let mut end: usize = n;
    while end > start && is_space_byte(bytes[end - 1])
        invariant
            from <= start <= end <= n,
            n == value@.len(),
            bytes@ == value.spec_bytes(),
            is_ascii(value),
            forall|j: int| 0 <= j < n ==> value@[j] as u8 == #[trigger] bytes@[j],
            rest == value@.skip(from as int),
            forall|j: int| end - from <= j < rest.len() ==> is_space(#[trigger] rest[j]),
        decreases end,
    {
        assert(rest[end - 1 - from] == value@[end - 1]);
        end -= 1;
    }
    proof {
        let k0 = start - from;
        let e0 = end - from;
        if start < n {
            assert(rest[k0] == value@[start as int]);
            assert('\0' <= value@[start as int] && value@[start as int] <= '\u{7f}');
        }
        assert(is_start(rest, k0));
        let k = choose|k: int| is_start(rest, k);
        assert(k == k0);
        if start < end {
            assert(rest[e0 - 1] == value@[end - 1]);
            assert('\0' <= value@[end - 1] && value@[end - 1] <= '\u{7f}');
        }
        assert(is_end(rest, k0, e0));
        let e = choose|e: int| is_end(rest, k0, e);
        assert(e == e0) by {
            if e < e0 {
                assert(is_space(rest[e0 - 1]));
            }
            if e0 < e {
                assert(is_space(rest[e - 1]));
            }
        }
        assert(value@.subrange(start as int, end as int) =~= rest.subrange(k0, e0));
    }
    value.substring_ascii(start, end)
}

/// Is `b` the code of a white-space character?
fn is_space_byte(b: u8) -> (r: bool)
    ensures
        r == (b == 32 || (9 <= b && b <= 13)),
{
    b == 32 || (9 <= b && b <= 13)
}

/// Does `value` begin with the name of the scheme?
fn begins_with_scheme(value: &str) -> (r: bool)
    requires
        is_ascii(value),
    ensures
        r == has_scheme(value@),
{
    proof {
        vstd::utf8::is_ascii_chars_encode_utf8(value@);
    }
    let bytes = value.as_bytes();
    if bytes.len() < 5 {
        return false;
    }
    let r = bytes[0] == 66 && bytes[1] == 97 && bytes[2] == 115 && bytes[3] == 105 && bytes[4]
        == 99;
    proof {
        let head = value@.subrange(0, 5);
        assert(forall|j: int| 0 <= j < 5 ==> head[j] == value@[j]);
        assert(forall|j: int|
            0 <= j < 5 ==> '\0' <= #[trigger] value@[j] && value@[j] <= '\u{7f}');
        if r {
            assert(head =~= scheme());
        } else {
            assert(head[0] == scheme()[0] && head[1] == scheme()[1] && head[2] == scheme()[2]
                && head[3] == scheme()[3] && head[4] == scheme()[4] ==> false);
        }
    }
    r
}

/// Reads the credentials that the value of the `Authorization` header of a
/// request carries; `header` is `None` for a request without that header.
pub fn basic_authentication(header: Option<&str>) -> (r: Result<Credentials, AuthError>)
    ensures
        match r {
            Ok(c) => basic_authentication_spec(
                match header {
                    Some(h) => Some(h@),
                    None => None,
                },
            ) == Ok::<CredentialsView, AuthError>(c@),
            Err(e) => basic_authentication_spec(
                match header {
                    Some(h) => Some(h@),
                    None => None,
                },
            ) == Err::<CredentialsView, AuthError>(e),
        },
{
    let value = match header {
        Some(value) => value,
        None => {
            return Err(AuthError::MissingHeader);
        },
    };
    if !value.is_ascii() {
        return Err(AuthError::NotText);
    }
    if !begins_with_scheme(value) {
        return Err(AuthError::NotBasic);
    }
    let encoded = trim_from(value, 5);
    let decoded = match decode_base64(encoded) {
        Some(bytes) => bytes,
        None => {
            return Err(AuthError::NotBase64);
        },
    };
    credentials_from_bytes(decoded)
}

} // verus!
