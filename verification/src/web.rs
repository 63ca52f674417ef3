//! What the crate takes from the `http` crate: request headers, what is attached to a request,
//! and status codes.
use crate::rancher_auth::{AuthContext, AuthContextView};
use crate::text;
use vstd::prelude::*;
use vstd::string::*;

verus! {

/// The multimap of headers that a request carries.
#[verifier::external_type_specification]
#[verifier::external_body]
#[verifier::reject_recursive_types(T)]
pub struct ExHeaderMap<T>(http::HeaderMap<T>);

/// The value of one header.
#[verifier::external_type_specification]
#[verifier::external_body]
pub struct ExHeaderValue(http::HeaderValue);

/// What is attached to a request: at most one value of each type.
#[verifier::external_type_specification]
#[verifier::external_body]
pub struct ExExtensions(http::Extensions);

/// What a header map holds: for each name that can be looked up in it as text, in lower case, the
/// bytes of the first value under that name.
pub uninterp spec fn header_values(headers: http::HeaderMap) -> Map<Seq<char>, Seq<u8>>;

/// The values of type `AuthContext` among what is attached to a request: none or one.
pub uninterp spec fn attached_contexts(extensions: http::Extensions) -> Seq<AuthContextView>;

/// The words that a printed status code gives after its number.
pub uninterp spec fn status_reason(code: u16) -> Seq<char>;

/// `s` with the letters `A` to `Z` in lower case.
pub open spec fn ascii_lowered(s: Seq<char>) -> Seq<char> {
    Seq::new(
        s.len(),
        |i: int|
            if 'A' <= s[i] <= 'Z' {
                (s[i] as u8 + 32) as char
            } else {
                s[i]
            },
    )
}

/// A byte that a header value may hold if it is to be read as text.
pub open spec fn is_visible(b: u8) -> bool {
    32 <= b < 127 || b == 9
}

/// All bytes are visible ASCII or tabs.
pub open spec fn all_visible(bytes: Seq<u8>) -> bool {
    forall|i: int| 0 <= i < bytes.len() ==> is_visible(#[trigger] bytes[i])
}

/// The text whose characters are the given ASCII bytes.
pub open spec fn ascii_text(bytes: Seq<u8>) -> Seq<char> {
    Seq::new(bytes.len(), |i: int| bytes[i] as char)
}

/// The text of the header called `name`, where it is there, can be read as text and is not empty.
pub open spec fn header_text(headers: http::HeaderMap, name: Seq<char>) -> Option<Seq<char>> {
    let key = ascii_lowered(name);
    if header_values(headers).contains_key(key) {
        let bytes = header_values(headers)[key];
        if all_visible(bytes) && bytes.len() > 0 {
            Some(ascii_text(bytes))
        } else {
            None
        }
    } else {
        None
    }
}

/// Calls `http::HeaderMap::get`. Trusted: it looks the name up without regard to the case of
/// ASCII letters and gives the bytes of the first value under that name, or nothing where the
/// map holds no value under it. Names of more than 64 bytes are compared by another path of that
/// function and are left out.
#[verifier::external_body]
fn header_value(headers: &http::HeaderMap, name: &str) -> (r: Option<Vec<u8>>)
    requires
        name.is_ascii(),
        name@.len() <= 64,
    ensures
        r is Some <==> header_values(*headers).contains_key(ascii_lowered(name@)),
        r matches Some(bytes) ==> bytes@ == header_values(*headers)[ascii_lowered(name@)],
{
    match headers.get(name) {
        Some(value) => Some(value.as_bytes().to_vec()),
        None => None,
    }
}

/// Calls `http::HeaderValue::to_str` on the header value made of the given bytes. Trusted: it
/// gives the bytes as text exactly where each of them is visible ASCII or a tab.
#[verifier::external_body]
fn visible_text(bytes: &[u8]) -> (r: Option<String>)
    ensures
        r is Some <==> all_visible(bytes@),
        r matches Some(text) ==> text@ == ascii_text(bytes@),
{
    match http::HeaderValue::from_bytes(bytes) {
        Ok(value) => match value.to_str() {
            Ok(text) => Some(text.to_string()),
            Err(_) => None,
        },
        Err(_) => None,
    }
}

/// Reads the header called `name`. A header that is empty, or that holds bytes other than
/// visible ASCII and tabs, counts as absent.
pub(crate) fn read_header(headers: &http::HeaderMap, name: &str) -> (r: Option<String>)
    requires
        name.is_ascii(),
        name@.len() <= 64,
    ensures
        r is Some <==> header_text(*headers, name@) is Some,
        r matches Some(text) ==> header_text(*headers, name@) == Some(text@),
{
    match header_value(headers, name) {
        None => None,
        Some(bytes) => match visible_text(bytes.as_slice()) {
            None => None,
            Some(text) => {
                if text.as_str().is_empty() {
                    None
                } else {
                    Some(text)
                }
            },
        },
    }
}

/// Who is behind a request, by what is attached to it.
pub open spec fn attached_context(extensions: http::Extensions) -> Option<AuthContextView> {
    if attached_contexts(extensions).len() > 0 {
        Some(attached_contexts(extensions)[0])
    } else {
        None
    }
}

/// Calls `http::Extensions::get` for the type `AuthContext`. Trusted: it gives the value of that
/// type that is attached, or nothing where there is none.
#[verifier::external_body]
pub(crate) fn context_of(extensions: &http::Extensions) -> (r: Option<&AuthContext>)
    ensures
        r is None <==> attached_contexts(*extensions).len() == 0,
        r matches Some(context) ==> attached_contexts(*extensions) == seq![context@],
{
    extensions.get::<AuthContext>()
}

/// Calls `http::Extensions::insert` with a value of type `AuthContext`. Trusted: afterwards that
/// value is the one of its type that is attached.
#[verifier::external_body]
pub(crate) fn attach_context(extensions: &mut http::Extensions, context: AuthContext)
    ensures
        attached_contexts(*final(extensions)) == seq![context@],
{
    extensions.insert(context);
}

/// The numbers that stand for a status code.
pub open spec fn is_status(code: u16) -> bool {
    100 <= code <= 999
}

/// The status codes by which a server says that it did what was asked.
pub open spec fn success_status(code: u16) -> bool {
    200 <= code <= 299
}

/// A status code in print: its number and the words for it.
pub open spec fn status_in_print(code: u16) -> Seq<char> {
    text::decimal(code as nat) + " "@ + status_reason(code)
}

/// Calls `http::StatusCode::is_success`. Trusted: it holds of 200 to 299.
#[verifier::external_body]
pub(crate) fn is_success(code: u16) -> (r: bool)
    requires
        is_status(code),
    ensures
        r == success_status(code),
{
    match http::StatusCode::from_u16(code) {
        Ok(status) => status.is_success(),
        Err(_) => false,
    }
}

/// Prints an `http::StatusCode` by its `Display`. Trusted: what is printed is the number in
/// decimal, a space, and the words that the `http` crate keeps for the number.
#[verifier::external_body]
pub(crate) fn status_text(code: u16) -> (r: String)
    requires
        is_status(code),
    ensures
        r@ == text::decimal(code as nat) + " "@ + status_reason(code),
{
    match http::StatusCode::from_u16(code) {
        Ok(status) => status.to_string(),
        Err(_) => String::new(),
    }
}

} // verus!
