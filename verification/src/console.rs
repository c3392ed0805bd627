//! The text of the command-line tools that look up, list and register users.

use vstd::prelude::*;
use crate::models::User;
use crate::testing::{decimal, decimal_bytes, decimal_string, digit_byte};

verus! {

/// A decimal digit character.
pub open spec fn is_digit(c: char) -> bool {
    '0' <= c <= '9'
}

/// Every character is a decimal digit.
pub open spec fn all_digits(d: Seq<char>) -> bool {
    forall|i: int| 0 <= i < d.len() ==> is_digit(#[trigger] d[i])
}

/// The number that a run of decimal digits spells.
pub open spec fn digits_value(d: Seq<char>) -> nat
    decreases d.len(),
{
    if d.len() == 0 {
        0
    } else {
        digits_value(d.drop_last()) * 10 + ((d.last() as int) - 48) as nat
    }
}

/// The digits of an unsigned number's text: all of it, after one leading
/// `+` if there is one.
pub open spec fn unsigned_digits(s: Seq<char>) -> Seq<char> {
    if s.len() > 0 && s[0] == '+' {
        s.drop_first()
    } else {
        s
    }
}

/// The `u32` that a text names, as `str::parse::<u32>` reads it: an
/// optional `+`, then at least one decimal digit, and a value that fits.
pub open spec fn parse_u32(s: Seq<char>) -> Option<u32> {
    let d = unsigned_digits(s);
    if d.len() > 0 && all_digits(d) && digits_value(d) <= u32::MAX {
        Some(digits_value(d) as u32)
    } else {
        None
    }
}

/// Appending digits never makes a number smaller.
proof fn lemma_digits_value_grows(d: Seq<char>, k: int)
    requires
        all_digits(d),
        0 <= k <= d.len(),
    ensures
        digits_value(d.subrange(0, k)) <= digits_value(d),
    decreases d.len() - k,
{
    if k < d.len() {
        lemma_digits_value_grows(d, k + 1);
        let longer = d.subrange(0, k + 1);
        assert(longer.drop_last() =~= d.subrange(0, k));
        assert(longer.last() == d[k]);
        assert(is_digit(d[k]));
        assert(digits_value(longer) == digits_value(d.subrange(0, k)) * 10 + ((d[k] as int) - 48) as nat);
    } else {
        assert(d.subrange(0, k) =~= d);
    }
}

/// Reads the user id given on the command line.
pub fn parse_user_id(text: &str) -> (id: Option<u32>)
    ensures
        id == parse_u32(text@),
{
    let len: usize = text.unicode_len();
    let ghost s = text@;
    let mut start: usize = 0;
    if len > 0 && text.get_char(0) == '+' {
        start = 1;
    }
    let ghost d = unsigned_digits(s);
    assert(d =~= s.subrange(start as int, len as int));
    if start >= len {
        return None;
    }
    let mut value: u64 = 0;
    let mut i: usize = start;
    while i < len
        invariant
            len == s.len(),
            s == text@,
            d == s.subrange(start as int, len as int),
            d == unsigned_digits(s),
            start <= i <= len,
            all_digits(s.subrange(start as int, i as int)),
            value == digits_value(s.subrange(start as int, i as int)),
            value <= u32::MAX,
        decreases len - i,
    {
        let c = text.get_char(i);
        let ghost before = s.subrange(start as int, i as int);
        let ghost after = s.subrange(start as int, i + 1);
        assert(after.drop_last() =~= before);
        assert(c == s[i as int]);
        assert(d[i - start] == s[i as int]);
        if !('0' <= c && c <= '9') {
            assert(!is_digit(d[i - start]));
            assert(!all_digits(d));
            return None;
        }
        assert(after.last() == c);
        let digit: u64 = (c as u32 - 48) as u64;
        assert(digits_value(after) == digits_value(before) * 10 + digit);
        value = value * 10 + digit;
        if value > 4294967295 {
            assert(all_digits(after));
            proof {
                if all_digits(d) {
                    assert(after =~= d.subrange(0, i + 1 - start));
                    lemma_digits_value_grows(d, i + 1 - start);
                    assert(digits_value(d) > u32::MAX);
                }
            }
            assert(parse_u32(s) is None);
            return None;
        }
        i = i + 1;
    }
    Some(value as u32)
}

/// The message that the lookup of user `user_id` prints: the user's name
/// when found, that it was not found, or that the lookup failed.
pub open spec fn lookup_message(user_id: u32, outcome: Result<Option<(u32, Seq<char>)>, ()>) -> Seq<char> {
    match outcome {
        Ok(Some((id, name))) => "User with id: "@ + decimal(id as nat) + " has a name: "@ + name,
        Ok(None) => "Unable to find user "@ + decimal(user_id as nat),
        Err(()) => "An error occurred while fetching user "@ + decimal(user_id as nat),
    }
}

/// Tells what the lookup of user `user_id` found.
pub fn user_lookup_message(user_id: u32, outcome: Result<Option<&User>, ()>) -> (message: String)
    ensures
        message@ == lookup_message(
            user_id,
            match outcome {
                Ok(Some(user)) => Ok(Some((user.id, user.name@))),
                Ok(None) => Ok(None),
                Err(()) => Err(()),
            },
        ),
{
    match outcome {
        Ok(Some(user)) => String::from_str("User with id: ").concat(
            decimal_string(user.id as u128).as_str(),
        ).concat(" has a name: ").concat(user.name.as_str()),
        Ok(None) => String::from_str("Unable to find user ").concat(
            decimal_string(user_id as u128).as_str(),
        ),
        Err(()) => String::from_str("An error occurred while fetching user ").concat(
            decimal_string(user_id as u128).as_str(),
        ),
    }
}

/// The most users the listing shows.
pub const LISTING_LIMIT: i64 = 5;

/// The line that describes one user in the listing.
pub open spec fn listing_line(user: User) -> Seq<char> {
    "id: "@ + decimal(user.id as nat) + ", name: "@ + user.name@ + ", email: "@ + user.email@
}

/// The heading of a listing of `count` users.
pub fn listing_heading(count: usize) -> (heading: String)
    ensures
        heading@ == "Displaying "@ + decimal(count as nat) + " users"@,
{
    String::from_str("Displaying ").concat(decimal_string(count as u128).as_str()).concat(" users")
}

/// The lines that describe the users, one per user in order.
pub fn listing_lines(users: &Vec<User>) -> (lines: Vec<String>)
    ensures
        lines@.len() == users@.len(),
        forall|i: int| 0 <= i < users@.len() ==> #[trigger] lines@[i]@ == listing_line(users@[i]),
{
    let mut lines: Vec<String> = Vec::new();
    let mut i: usize = 0;
    while i < users.len()
        invariant
            i <= users@.len(),
            lines@.len() == i,
            forall|j: int| 0 <= j < i ==> #[trigger] lines@[j]@ == listing_line(users@[j]),
        decreases users.len() - i,
    {
        let user = &users[i];
        let line = String::from_str("id: ").concat(decimal_string(user.id as u128).as_str()).concat(
            ", name: ",
        ).concat(user.name.as_str()).concat(", email: ").concat(user.email.as_str());
        lines.push(line);
        i = i + 1;
    }
    lines
}

/// A character with the Unicode `White_Space` property, as
/// `char::is_whitespace` documents it.
pub open spec fn is_whitespace(c: char) -> bool {
    let u: u32 = c as u32;
    (9 <= u <= 13) || u == 32 || u == 0x85 || u == 0xa0 || u == 0x1680 || (0x2000 <= u <= 0x200a)
        || u == 0x2028 || u == 0x2029 || u == 0x202f || u == 0x205f || u == 0x3000
}

/// Whether a character has the Unicode `White_Space` property.
pub fn is_whitespace_char(c: char) -> (white: bool)
    ensures
        white == is_whitespace(c),
{
    let u: u32 = c as u32;
    (9 <= u && u <= 13) || u == 32 || u == 0x85 || u == 0xa0 || u == 0x1680 || (0x2000 <= u && u
        <= 0x200a) || u == 0x2028 || u == 0x2029 || u == 0x202f || u == 0x205f || u == 0x3000
}

/// A text without its trailing whitespace, as `str::trim_end` gives it.
pub open spec fn trimmed_end(s: Seq<char>) -> Seq<char>
    decreases s.len(),
{
    if s.len() > 0 && is_whitespace(s.last()) {
        trimmed_end(s.drop_last())
    } else {
        s
    }
}

/// Removes the trailing whitespace of an answer typed at the prompt.
pub fn trim_end(text: &str) -> (trimmed: String)
    ensures
        trimmed@ == trimmed_end(text@),
{
    let mut end: usize = text.unicode_len();
    assert(text@.subrange(0, end as int) =~= text@);
    while end > 0 && is_whitespace_char(text.get_char(end - 1))
        invariant
            end <= text@.len(),
            trimmed_end(text@) == trimmed_end(text@.subrange(0, end as int)),
        decreases end,
    {
        assert(text@.subrange(0, end as int).drop_last() =~= text@.subrange(0, end - 1));
        end = end - 1;
    }
    String::from_str(text.substring_char(0, end))
}

/// The registration tool's questions.
pub fn name_prompt() -> (prompt: String)
    ensures
        prompt@ == "What would you like your name to be?"@,
{
    String::from_str("What would you like your name to be?")
}

/// The registration tool's second question.
pub fn email_prompt() -> (prompt: String)
    ensures
        prompt@ == "What would you like your email to be?"@,
{
    String::from_str("What would you like your email to be?")
}

/// What the registration tool reports once a user is saved.
pub fn saved_message(name: &str, id: u32) -> (message: String)
    ensures
        message@ == "\nSaved user '"@ + name@ + "' with id:"@ + decimal(id as nat),
{
    String::from_str("\nSaved user '").concat(name).concat("' with id:").concat(
        decimal_string(id as u128).as_str(),
    )
}


/// The decimal numeral of a number is all digits and spells the number.
proof fn lemma_decimal_spells(n: nat)
    ensures
        decimal(n).len() > 0,
        all_digits(decimal(n)),
        digits_value(decimal(n)) == n,
    decreases n,
{
    if n >= 10 {
        lemma_decimal_spells(n / 10);
        let shorter = decimal(n / 10);
        assert(decimal_bytes(n) == decimal_bytes(n / 10).push(digit_byte(n % 10)));
        assert(decimal(n).drop_last() =~= shorter);
        assert(decimal(n).last() == (digit_byte(n % 10) as char));
        assert(((digit_byte(n % 10) as char) as int) == 48 + n % 10);
        assert(digits_value(decimal(n)) == digits_value(shorter) * 10 + (n % 10));
        assert((n / 10) * 10 + n % 10 == n) by (nonlinear_arith);
        assert(digits_value(decimal(n)) == n);
        assert forall|i: int| 0 <= i < decimal(n).len() implies is_digit(#[trigger] decimal(n)[i]) by {
            if i < shorter.len() {
                assert(decimal(n)[i] == shorter[i]);
            }
        }
    } else {
        assert(decimal(n) =~= seq![digit_byte(n) as char]);
        assert(((digit_byte(n) as char) as int) == 48 + n);
        assert(decimal(n).drop_last() =~= Seq::<char>::empty());
        assert(digits_value(Seq::<char>::empty()) == 0);
        assert(digits_value(decimal(n)) == digits_value(decimal(n).drop_last()) * 10 + ((decimal(
            n,
        ).last() as int) - 48) as nat);
        assert(digits_value(decimal(n)) == n);
    }
}

/// Law: a user id written in decimal, as the tools print it, reads back as
/// the same id.
pub proof fn lemma_user_id_round_trip(id: u32)
    ensures
        parse_u32(decimal(id as nat)) == Some(id),
{
    lemma_decimal_spells(id as nat);
    assert(is_digit(decimal(id as nat)[0]));
}

} // verus!
