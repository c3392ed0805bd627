//! The two request middlewares, authorization and logging, and the API-key
//! header that both read.

pub mod authorization_service;
pub mod basic_logger;
pub mod logger;

use vstd::prelude::*;
use crate::text::{ascii_chars, all_ascii, ascii_string};

verus! {

/// The request header that carries a client's API key.
pub const API_KEY_NAME: &'static str = "API_KEY";

/// A header byte that `http` accepts as visible text: printable ASCII or a tab.
pub open spec fn is_visible_ascii(b: u8) -> bool {
    (32 <= b && b < 127) || b == 9
}

/// The text of a header value, as `http::HeaderValue::to_str` gives it: the
/// bytes read as characters when all are visible ASCII, nothing otherwise.
pub open spec fn header_value_text(bytes: Seq<u8>) -> Option<Seq<char>> {
    if forall|i: int| 0 <= i < bytes.len() ==> is_visible_ascii(#[trigger] bytes[i]) {
        Some(ascii_chars(bytes))
    } else {
        None
    }
}

/// The raw header value of a request, as a byte sequence.
pub open spec fn header_bytes(header: Option<&[u8]>) -> Option<Seq<u8>> {
    match header {
        Some(bytes) => Some(bytes@),
        None => None,
    }
}

/// The API key a request presents: the header's text, when the header is
/// there and its value is visible text; no key otherwise.
pub open spec fn presented_key(header: Option<Seq<u8>>) -> Option<Seq<char>> {
    match header {
        None => None,
        Some(bytes) => header_value_text(bytes),
    }
}

/// How the API key of a request is printed: the header's text, `"None"`
/// when the header is absent and `"Invalid"` when its value is not visible
/// text.
pub open spec fn printed_key(header: Option<Seq<u8>>) -> Seq<char> {
    match header {
        None => "None"@,
        Some(bytes) => match header_value_text(bytes) {
            Some(text) => text,
            None => "Invalid"@,
        },
    }
}

/// Reads a header value as text when every byte is visible ASCII.
pub fn header_value_to_str(bytes: &[u8]) -> (text: Option<String>)
    ensures
        text is Some <==> header_value_text(bytes@) is Some,
        text matches Some(s) ==> header_value_text(bytes@) == Some(s@),
        text is Some <==> forall|i: int|
            0 <= i < bytes@.len() ==> (32 <= #[trigger] bytes@[i] && bytes@[i] < 127) || bytes@[i] == 9,
        text matches Some(s) ==> s@.len() == bytes@.len() && forall|i: int|
            0 <= i < bytes@.len() ==> #[trigger] s@[i] == bytes@[i] as char,
{
    let mut copy: Vec<u8> = Vec::new();
    let mut i: usize = 0;
    while i < bytes.len()
        invariant
            i <= bytes.len(),
            copy@ == bytes@.subrange(0, i as int),
            forall|j: int| 0 <= j < i ==> is_visible_ascii(#[trigger] bytes@[j]),
        decreases bytes.len() - i,
    {
        let b: u8 = bytes[i];
        if !((32 <= b && b < 127) || b == 9) {
            assert(!(forall|j: int| 0 <= j < bytes@.len() ==> is_visible_ascii(#[trigger] bytes@[j])));
            return None;
        }
        copy.push(b);
        i = i + 1;
    }
    assert(copy@ == bytes@);
    assert(all_ascii(copy@));
    Some(ascii_string(copy))
}

/// The API key that a request with the given header value presents.
pub fn presented_api_key(header: Option<&[u8]>) -> (key: Option<String>)
    ensures
        key is Some <==> presented_key(header_bytes(header)) is Some,
        key matches Some(k) ==> presented_key(header_bytes(header)) == Some(k@),
        header is None ==> key is None,
        header matches Some(bytes) ==> (key is Some <==> forall|i: int|
            0 <= i < bytes@.len() ==> (32 <= #[trigger] bytes@[i] && bytes@[i] < 127) || bytes@[i] == 9),
        header matches Some(bytes) ==> (key matches Some(k) ==> k@.len() == bytes@.len() && forall|i: int|
            0 <= i < bytes@.len() ==> #[trigger] k@[i] == bytes@[i] as char),
{
    match header {
        None => None,
        Some(bytes) => header_value_to_str(bytes),
    }
}

/// How the API key of a request with the given header value is printed.
pub fn printed_api_key(header: Option<&[u8]>) -> (text: String)
    ensures
        text@ == printed_key(header_bytes(header)),
        header is None ==> text@ == "None"@,
        header matches Some(bytes) ==> (if forall|i: int|
            0 <= i < bytes@.len() ==> (32 <= #[trigger] bytes@[i] && bytes@[i] < 127) || bytes@[i] == 9 {
            text@.len() == bytes@.len() && forall|i: int|
                0 <= i < bytes@.len() ==> #[trigger] text@[i] == bytes@[i] as char
        } else {
            text@ == "Invalid"@
        }),
{
    match header {
        None => String::from_str("None"),
        Some(bytes) => match header_value_to_str(bytes) {
            Some(text) => text,
            None => String::from_str("Invalid"),
        },
    }
}

/// Law: a header value is read as text exactly when every byte is printable
/// ASCII (32 to 126) or a tab, whatever its length, and the text is then the
/// bytes read one character each. Such a value is the key a request presents
/// and the key text it is logged under; a value with any other byte presents
/// no key and is logged as `"Invalid"`; a missing header presents no key and
/// is logged as `"None"`.
pub proof fn lemma_header_text_is_the_header(bytes: Seq<u8>)
    ensures
        (forall|i: int|
            0 <= i < bytes.len() ==> (32 <= #[trigger] bytes[i] && bytes[i] < 127) || bytes[i] == 9) ==> {
            &&& header_value_text(bytes) is Some
            &&& header_value_text(bytes).unwrap().len() == bytes.len()
            &&& forall|i: int|
                0 <= i < bytes.len() ==> #[trigger] header_value_text(bytes).unwrap()[i] == bytes[i] as char
            &&& presented_key(Some(bytes)) == header_value_text(bytes)
            &&& printed_key(Some(bytes)) == header_value_text(bytes).unwrap()
        },
        !(forall|i: int|
            0 <= i < bytes.len() ==> (32 <= #[trigger] bytes[i] && bytes[i] < 127) || bytes[i] == 9) ==> {
            &&& header_value_text(bytes) is None
            &&& presented_key(Some(bytes)) is None
            &&& printed_key(Some(bytes)) == "Invalid"@
        },
        presented_key(None) is None,
        printed_key(None) == "None"@,
{
    if forall|i: int|
        0 <= i < bytes.len() ==> (32 <= #[trigger] bytes[i] && bytes[i] < 127) || bytes[i] == 9 {
        assert(forall|i: int| 0 <= i < bytes.len() ==> is_visible_ascii(#[trigger] bytes[i]));
    } else {
        let i = choose|i: int|
            0 <= i < bytes.len() && !((32 <= #[trigger] bytes[i] && bytes[i] < 127) || bytes[i] == 9);
        assert(!is_visible_ascii(bytes[i]));
    }
}

} // verus!
