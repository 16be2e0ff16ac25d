//! Input checks of the service's entry points: network requests, storage
//! writes and logins, and the form a storage key must have.
//!
//! Each check takes the request already decoded from its JSON text and
//! either refuses it with `SecurityError::InvalidInput` or answers it.

use vstd::prelude::*;
use vstd::utf8::encode_utf8;
use crate::ids::{is_uuid_v4_text, new_uuid_text};
use crate::text::{concat, owned, push_decimal, decimal, trim, trimmed};

verus! {

/// Why a request was refused.
#[derive(Debug, Clone, PartialEq, Eq)]
pub enum SecurityError {
    InvalidInput(String),
    Unauthorized,
    Forbidden,
    InternalError(String),
}

/// The text of a security error.
pub open spec fn security_error_text(e: SecurityError) -> Seq<char> {
    match e {
        SecurityError::InvalidInput(m) => "invalid input: "@ + m@,
        SecurityError::Unauthorized => "unauthorized"@,
        SecurityError::Forbidden => "forbidden"@,
        SecurityError::InternalError(m) => "internal error: "@ + m@,
    }
}

impl SecurityError {
    /// The text of the error, as it is shown to a user.
    pub fn to_text(&self) -> (r: String)
        ensures
            r@ == security_error_text(*self),
    {
        match self {
            SecurityError::InvalidInput(m) => concat("invalid input: ", m.as_str()),
            SecurityError::Unauthorized => owned("unauthorized"),
            SecurityError::Forbidden => owned("forbidden"),
            SecurityError::InternalError(m) => concat("internal error: ", m.as_str()),
        }
    }
}

/// Whether `e` is the refusal of invalid input with the message `m`.
pub open spec fn is_invalid_input(e: SecurityError, m: Seq<char>) -> bool {
    match e {
        SecurityError::InvalidInput(x) => x@ == m,
        _ => false,
    }
}

/// A request to open a connection.
#[derive(Debug)]
pub struct NetworkInput {
    pub address: String,
    pub port: u16,
    pub payload: Option<String>,
}

/// The answer to a connection request.
#[derive(Debug)]
pub struct NetworkOutput {
    pub ok: bool,
    pub message: String,
}

/// Checks a connection request: the address must hold more than white
/// space and the port must not be 0. The answer names the address without
/// surrounding white space and the port.
pub fn process(input: NetworkInput) -> (r: Result<NetworkOutput, SecurityError>)
    ensures
        trimmed(input.address@).len() == 0 ==> (r matches Err(e) && is_invalid_input(e, "address empty"@)),
        trimmed(input.address@).len() > 0 && input.port == 0 ==> (r matches Err(e)
            && is_invalid_input(e, "port must be > 0"@)),
        trimmed(input.address@).len() > 0 && input.port != 0 ==> (r matches Ok(out) && out.ok
            && out.message@ == "connected to "@ + trimmed(input.address@) + ":"@ + decimal(input.port as nat)),
{
    let address = trim(input.address.as_str());
    if address.as_str().is_empty() {
        return Err(SecurityError::InvalidInput(owned("address empty")));
    }
    if input.port == 0 {
        return Err(SecurityError::InvalidInput(owned("port must be > 0")));
    }
    let mut message = concat("connected to ", address.as_str());
    message.append(":");
    push_decimal(&mut message, input.port as u64);
    Ok(NetworkOutput { ok: true, message })
}

/// A request to store a value under a key.
#[derive(Debug)]
pub struct StorageInput {
    pub key: String,
    pub value: String,
}

/// The answer to a storage request.
#[derive(Debug)]
pub struct StorageOutput {
    pub stored: bool,
}

/// Checks a storage request: the key must hold more than white space.
pub fn put(input: StorageInput) -> (r: Result<StorageOutput, SecurityError>)
    ensures
        trimmed(input.key@).len() == 0 ==> (r matches Err(e) && is_invalid_input(e, "empty key"@)),
        trimmed(input.key@).len() > 0 ==> (r matches Ok(out) && out.stored),
{
    let key = trim(input.key.as_str());
    if key.as_str().is_empty() {
        return Err(SecurityError::InvalidInput(owned("empty key")));
    }
    Ok(StorageOutput { stored: true })
}

/// A login request.
#[derive(Debug)]
pub struct AuthInput {
    pub username: String,
    pub password: String,
}

/// The shortest password, in bytes of UTF-8 once surrounding white space is gone.
pub open spec fn min_password_bytes() -> nat {
    8
}

/// Checks a login request: the user name must hold more than white space
/// and the password, without surrounding white space, at least eight bytes.
/// A successful login gets a token: `token-` and a fresh random UUID.
pub fn login(input: AuthInput) -> (r: Result<String, SecurityError>)
    ensures
        trimmed(input.username@).len() == 0 ==> (r matches Err(e) && is_invalid_input(e, "username empty"@)),
        trimmed(input.username@).len() > 0 && encode_utf8(trimmed(input.password@)).len() < min_password_bytes()
            ==> (r matches Err(e) && is_invalid_input(e, "password too short"@)),
        trimmed(input.username@).len() > 0 && encode_utf8(trimmed(input.password@)).len() >= min_password_bytes()
            ==> (r matches Ok(token) && token@.len() == 42 && token@.subrange(0, 6) == "token-"@
                && is_uuid_v4_text(token@.subrange(6, 42))),
{
    let username = trim(input.username.as_str());
    if username.as_str().is_empty() {
        return Err(SecurityError::InvalidInput(owned("username empty")));
    }
    let password = trim(input.password.as_str());
    if password.as_str().as_bytes().len() < 8 {
        return Err(SecurityError::InvalidInput(owned("password too short")));
    }
    let id = new_uuid_text();
    let token = concat("token-", id.as_str());
    proof {
        reveal_strlit("token-");
        assert(token@.subrange(0, 6) == "token-"@);
        assert(token@.subrange(6, 42) == id@);
    }
    Ok(token)
}

/// The pattern a storage key must match: one or more letters, digits,
/// `_`, `-`, `:` or `.`.
pub open spec fn key_pattern() -> Seq<char> {
    "^[A-Za-z0-9_\\-:.]+$"@
}

/// Whether `c` may stand in a storage key: an ASCII letter or digit, `_`,
/// `-`, `:` or `.`.
pub open spec fn is_key_char(c: char) -> bool {
    ||| ('A' <= c && c <= 'Z')
    ||| ('a' <= c && c <= 'z')
    ||| ('0' <= c && c <= '9')
    ||| c == '_'
    ||| c == '-'
    ||| c == ':'
    ||| c == '.'
}

/// The form of a storage key: at least one character, each of them a key
/// character.
pub open spec fn key_form(s: Seq<char>) -> bool {
    s.len() > 0 && forall|i: int| 0 <= i < s.len() ==> #[trigger] is_key_char(s[i])
}

/// Whether the regular expression `pattern`, compiled by the `regex` crate,
/// matches somewhere in `text` (false when the pattern does not compile).
pub uninterp spec fn regex_is_match(pattern: Seq<char>, text: Seq<char>) -> bool;

/// Compiles `pattern` with `regex::Regex::new` and tests `text` with
/// `Regex::is_match`; a pattern that does not compile matches nothing.
/// Claimed: the answer depends on `pattern` and `text` alone, and is named
/// `regex_is_match`. Of the storage-key pattern it is claimed, as the crate's
/// syntax documentation gives it (`^` and `$` anchor at the start and end of
/// the haystack when multi-line mode is off, `[...]+` is one or more of the
/// listed characters), that it matches exactly the texts of `key_form`.
/// Nothing more is said of other patterns.
#[verifier::external_body]
fn pattern_matches(pattern: &str, text: &str) -> (r: bool)
    ensures
        r == regex_is_match(pattern@, text@),
        pattern@ == key_pattern() ==> (r <==> key_form(text@)),
{
    match regex::Regex::new(pattern) {
        Ok(re) => re.is_match(text),
        Err(_) => false,
    }
}

/// Whether `key` has the form of a storage key: non-empty, and made of
/// ASCII letters, digits, `_`, `-`, `:` and `.` only.
pub fn is_valid_key(key: &str) -> (r: bool)
    ensures
        r == key_form(key@),
        r == regex_is_match(key_pattern(), key@),
{
    pattern_matches("^[A-Za-z0-9_\\-:.]+$", key)
}

} // verus!
