//! Names of the throwaway databases that tests run against.
//!
//! Each test context creates a database named after the current time in
//! nanoseconds and six random letters or digits, reaches it at the server's
//! URL followed by that name, and drops it again by the last segment of its
//! URL.

use vstd::prelude::*;
use crate::text::{ascii_chars, all_ascii, ascii_string, is_alphanumeric_char, random_alphanumeric_text};

verus! {

/// The ASCII code of a decimal digit.
pub open spec fn digit_byte(d: nat) -> u8
    recommends
        d < 10,
{
    (48 + d) as u8
}

/// The decimal numeral of a number, as ASCII bytes, without leading zeros.
pub open spec fn decimal_bytes(n: nat) -> Seq<u8>
    decreases n,
{
    if n < 10 {
        seq![digit_byte(n)]
    } else {
        decimal_bytes(n / 10).push(digit_byte(n % 10))
    }
}

/// The decimal numeral of a number.
pub open spec fn decimal(n: nat) -> Seq<char> {
    ascii_chars(decimal_bytes(n))
}

/// Decimal numerals are ASCII.
proof fn lemma_decimal_bytes_ascii(n: nat)
    ensures
        all_ascii(decimal_bytes(n)),
    decreases n,
{
    if n >= 10 {
        lemma_decimal_bytes_ascii(n / 10);
    }
}

/// Writes a number in decimal.
pub fn decimal_string(n: u128) -> (text: String)
    ensures
        text@ == decimal(n as nat),
{
    let mut rest: u128 = n / 10;
    let mut digits: Vec<u8> = Vec::new();
    digits.push((48 + n % 10) as u8);
    while rest > 0
        invariant
            decimal_bytes(n as nat) == (if rest == 0 {
                digits@
            } else {
                decimal_bytes(rest as nat) + digits@
            }),
        decreases rest,
    {
        let ghost before = digits@;
        digits.insert(0, (48 + rest % 10) as u8);
        assert(digits@ =~= seq![digit_byte((rest % 10) as nat)] + before);
        if rest < 10 {
            assert(decimal_bytes(rest as nat) == seq![digit_byte(rest as nat)]);
        } else {
            assert(decimal_bytes(rest as nat) == decimal_bytes((rest / 10) as nat).push(
                digit_byte((rest % 10) as nat),
            ));
            assert(decimal_bytes((rest / 10) as nat).push(digit_byte((rest % 10) as nat)) + before
                =~= decimal_bytes((rest / 10) as nat) + digits@);
        }
        rest = rest / 10;
    }
    proof {
        lemma_decimal_bytes_ascii(n as nat);
    }
    ascii_string(digits)
}

/// Six random ASCII letters or digits.
pub fn generate_random_string() -> (text: String)
    ensures
        text@.len() == 6,
        forall|i: int| 0 <= i < 6 ==> is_alphanumeric_char(#[trigger] text@[i]),
{
    random_alphanumeric_text(6)
}

/// The name of a test database made at this time with this random text.
pub fn unique_database_name(timestamp_nanos: u128, random: &str) -> (name: String)
    ensures
        name@ == decimal(timestamp_nanos as nat) + "_"@ + random@,
{
    decimal_string(timestamp_nanos).concat("_").concat(random)
}

/// The URL of the database with this name on the server at this URL.
pub fn database_url(server_url: &str, name: &str) -> (url: String)
    ensures
        url@ == server_url@ + name@,
{
    String::from_str(server_url).concat(name)
}

/// The statement that creates the database with this name.
pub fn create_database_statement(name: &str) -> (statement: String)
    ensures
        statement@ == "CREATE DATABASE "@ + name@,
{
    String::from_str("CREATE DATABASE ").concat(name)
}

/// The statement that drops the database with this name.
pub fn drop_database_statement(name: &str) -> (statement: String)
    ensures
        statement@ == "DROP DATABASE "@ + name@,
{
    String::from_str("DROP DATABASE ").concat(name)
}

/// What follows the last `/` of a text, or all of it when it has none.
pub open spec fn last_segment(s: Seq<char>) -> Seq<char>
    decreases s.len(),
{
    if s.len() == 0 {
        s
    } else if s.last() == '/' {
        Seq::empty()
    } else {
        last_segment(s.drop_last()).push(s.last())
    }
}

/// The name of the database that a URL reaches: its last `/`-separated segment.
pub fn database_name(database_url: &str) -> (name: String)
    ensures
        name@ == last_segment(database_url@),
{
    let len: usize = database_url.unicode_len();
    let mut start: usize = 0;
    let mut i: usize = 0;
    while i < len
        invariant
            len == database_url@.len(),
            start <= i <= len,
            last_segment(database_url@.subrange(0, i as int)) == database_url@.subrange(
                start as int,
                i as int,
            ),
        decreases len - i,
    {
        let c = database_url.get_char(i);
        let ghost prefix = database_url@.subrange(0, i as int);
        assert(database_url@.subrange(0, i + 1).drop_last() =~= prefix);
        if c == '/' {
            start = i + 1;
        }
        assert(database_url@.subrange(start as int, i + 1) =~= if c == '/' {
            Seq::empty()
        } else {
            database_url@.subrange(start as int, i as int).push(c)
        });
        i = i + 1;
    }
    assert(database_url@.subrange(0, len as int) =~= database_url@);
    String::from_str(database_url.substring_char(start, len))
}


/// A text without any `/`.
pub open spec fn has_no_slash(s: Seq<char>) -> bool {
    forall|i: int| 0 <= i < s.len() ==> #[trigger] s[i] != '/'
}

/// What follows a text that is empty or ends in `/` is its own last segment
/// when it holds no `/`.
proof fn lemma_last_segment_after_slash(a: Seq<char>, b: Seq<char>)
    requires
        a.len() == 0 || a.last() == '/',
        has_no_slash(b),
    ensures
        last_segment(a + b) == b,
    decreases b.len(),
{
    if b.len() == 0 {
        assert(a + b =~= a);
    } else {
        lemma_last_segment_after_slash(a, b.drop_last());
        assert((a + b).drop_last() =~= a + b.drop_last());
        assert((a + b).last() == b.last());
        assert(b.drop_last().push(b.last()) =~= b);
    }
}

/// Decimal numerals hold no `/`.
proof fn lemma_decimal_has_no_slash(n: nat)
    ensures
        has_no_slash(decimal(n)),
    decreases n,
{
    if n >= 10 {
        lemma_decimal_has_no_slash(n / 10);
        assert(decimal_bytes(n) == decimal_bytes(n / 10).push(digit_byte(n % 10)));
        assert forall|i: int| 0 <= i < decimal(n).len() implies #[trigger] decimal(n)[i] != '/' by {
            if i < decimal(n).len() - 1 {
                assert(decimal(n)[i] == decimal(n / 10)[i]);
            }
        }
    }
}

/// Law: the database a test context drops is the one it created. For a
/// server URL that is empty or ends in `/`, the name read back from the URL
/// of a database named after a time and six letters or digits is that name.
pub proof fn lemma_dropped_database_is_created(
    server_url: Seq<char>,
    timestamp_nanos: nat,
    random: Seq<char>,
)
    requires
        server_url.len() == 0 || server_url.last() == '/',
        forall|i: int| 0 <= i < random.len() ==> is_alphanumeric_char(#[trigger] random[i]),
    ensures
        last_segment(server_url + (decimal(timestamp_nanos) + "_"@ + random)) == decimal(
            timestamp_nanos,
        ) + "_"@ + random,
{
    reveal_strlit("_");
    let name = decimal(timestamp_nanos) + "_"@ + random;
    lemma_decimal_has_no_slash(timestamp_nanos);
    assert forall|i: int| 0 <= i < name.len() implies #[trigger] name[i] != '/' by {
        let d = decimal(timestamp_nanos);
        if i < d.len() {
            assert(name[i] == d[i]);
        } else if i == d.len() {
            assert(name[i] == '_');
        } else {
            assert(name[i] == random[i - d.len() - 1]);
        }
    }
    lemma_last_segment_after_slash(server_url, name);
}

} // verus!
