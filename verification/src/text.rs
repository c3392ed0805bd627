//! Text built from bytes: UTF-8 decoding, header values and decimal numbers.

use vstd::prelude::*;
use vstd::utf8::*;

verus! {

/// The characters that a sequence of ASCII bytes spells, one per byte.
pub open spec fn ascii_chars(bytes: Seq<u8>) -> Seq<char> {
    bytes.map_values(|b: u8| b as char)
}

/// Every byte is below 128.
pub open spec fn all_ascii(bytes: Seq<u8>) -> bool {
    forall|i: int| 0 <= i < bytes.len() ==> #[trigger] bytes[i] < 128
}

/// ASCII bytes are valid UTF-8 and decode to one character per byte.
pub proof fn lemma_ascii_bytes_decode(bytes: Seq<u8>)
    requires
        all_ascii(bytes),
    ensures
        valid_utf8(bytes),
        decode_utf8(bytes) == ascii_chars(bytes),
{
    let chars = ascii_chars(bytes);
    assert(is_ascii_chars(chars)) by {
        assert forall|i| 0 <= i < chars.len() implies '\0' <= #[trigger] chars[i] <= '\u{7f}' by {
            assert(bytes[i] < 128);
        }
    }
    is_ascii_chars_encode_utf8(chars);
    assert(encode_utf8(chars) =~= bytes) by {
        assert forall|i| 0 <= i < bytes.len() implies #[trigger] encode_utf8(chars)[i] == bytes[i] by {
            assert(chars[i] as u8 == encode_utf8(chars)[i]);
            let b: u8 = bytes[i];
            assert((b as char) as u8 == b);
        }
    }
    encode_utf8_valid_utf8(chars);
    encode_utf8_decode_utf8(chars);
}

/// `String::from_utf8`: hands the bytes back as a `String` exactly when they
/// are valid UTF-8, and the string's characters are then the decoding of
/// the bytes, as std documents.
#[verifier::external_body]
pub(crate) fn utf8_string(bytes: Vec<u8>) -> (text: Option<String>)
    ensures
        text is Some <==> valid_utf8(bytes@),
        text matches Some(s) ==> s@ == decode_utf8(bytes@),
{
    String::from_utf8(bytes).ok()
}

/// The string spelled by ASCII bytes.
pub fn ascii_string(bytes: Vec<u8>) -> (text: String)
    requires
        all_ascii(bytes@),
    ensures
        text@ == ascii_chars(bytes@),
{
    proof {
        lemma_ascii_bytes_decode(bytes@);
    }
    match utf8_string(bytes) {
        Some(s) => s,
        None => {
            assert(false);
            String::new()
        },
    }
}

/// A letter or digit of the ASCII range, as a byte.
pub open spec fn is_alphanumeric(b: u8) -> bool {
    (48 <= b <= 57) || (65 <= b <= 90) || (97 <= b <= 122)
}

/// A letter or digit of the ASCII range.
pub open spec fn is_alphanumeric_char(c: char) -> bool {
    ('0' <= c <= '9') || ('A' <= c <= 'Z') || ('a' <= c <= 'z')
}

/// `rand`: one draw from the `Alphanumeric` distribution with the thread's
/// random generator. Whatever it draws is an ASCII letter or digit, as the
/// distribution's character set shows.
#[verifier::external_body]
fn random_alphanumeric() -> (b: u8)
    ensures
        is_alphanumeric(b),
{
    rand::Rng::sample(&mut rand::thread_rng(), rand::distributions::Alphanumeric)
}

/// `len` random ASCII letters or digits.
pub fn random_alphanumeric_text(len: usize) -> (text: String)
    ensures
        text@.len() == len,
        forall|i: int| 0 <= i < len ==> is_alphanumeric_char(#[trigger] text@[i]),
{
    let mut bytes: Vec<u8> = Vec::new();
    let mut i: usize = 0;
    while i < len
        invariant
            i <= len,
            bytes@.len() == i,
            forall|j: int| 0 <= j < i ==> is_alphanumeric(#[trigger] bytes@[j]),
        decreases len - i,
    {
        bytes.push(random_alphanumeric());
        i = i + 1;
    }
    let ghost view = bytes@;
    assert(all_ascii(view));
    let text = ascii_string(bytes);
    assert forall|i: int| 0 <= i < len implies is_alphanumeric_char(#[trigger] text@[i]) by {
        let b: u8 = view[i];
        assert(is_alphanumeric(b) && text@[i] == b as char);
    }
    text
}

} // verus!
