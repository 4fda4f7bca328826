//! The pieces of text that the error messages are put together from.

use vstd::prelude::*;
use vstd::string::StringExecFns;

verus! {

/// The character of a decimal digit.
pub open spec fn digit_char(d: nat) -> char {
    if d == 0 {
        '0'
    } else if d == 1 {
        '1'
    } else if d == 2 {
        '2'
    } else if d == 3 {
        '3'
    } else if d == 4 {
        '4'
    } else if d == 5 {
        '5'
    } else if d == 6 {
        '6'
    } else if d == 7 {
        '7'
    } else if d == 8 {
        '8'
    } else {
        '9'
    }
}

/// A number in decimal digits, without leading zeros.
pub open spec fn decimal(n: nat) -> Seq<char>
    decreases n,
{
    if n < 10 {
        seq![digit_char(n)]
    } else {
        decimal(n / 10) + seq![digit_char(n % 10)]
    }
}

fn digit_text(d: usize) -> (s: &'static str)
    requires
        d < 10,
    ensures
        s@ == seq![digit_char(d as nat)],
{
    proof {
        reveal_strlit("0");
        reveal_strlit("1");
        reveal_strlit("2");
        reveal_strlit("3");
        reveal_strlit("4");
        reveal_strlit("5");
        reveal_strlit("6");
        reveal_strlit("7");
        reveal_strlit("8");
        reveal_strlit("9");
    }
    let s = if d == 0 {
        "0"
    } else if d == 1 {
        "1"
    } else if d == 2 {
        "2"
    } else if d == 3 {
        "3"
    } else if d == 4 {
        "4"
    } else if d == 5 {
        "5"
    } else if d == 6 {
        "6"
    } else if d == 7 {
        "7"
    } else if d == 8 {
        "8"
    } else {
        "9"
    };
    assert(s@ =~= seq![digit_char(d as nat)]);
    s
}

/// Writes `n` in decimal digits.
pub fn decimal_text(n: usize) -> (s: String)
    ensures
        s@ == decimal(n as nat),
    decreases n,
{
    if n < 10 {
        String::from_str(digit_text(n))
    } else {
        let head = decimal_text(n / 10);
        head.concat(digit_text(n % 10))
    }
}

/// A text between double quotes with the escapes of Rust's `Debug` for
/// `str`, as `format!("{:?}", s)` writes it.
pub uninterp spec fn debug_quoted(s: Seq<char>) -> Seq<char>;

/// Calls `format!` with `{:?}` on a `str`; the contract names the result.
#[verifier::external_body]
pub(crate) fn debug_text(s: &str) -> (out: String)
    ensures
        out@ == debug_quoted(s@),
{
    format!("{:?}", s)
}

/// The lower-case hexadecimal digit of a value below 16.
pub open spec fn hex_digit(n: int) -> char {
    if n < 10 {
        digit_char(n as nat)
    } else if n == 10 {
        'a'
    } else if n == 11 {
        'b'
    } else if n == 12 {
        'c'
    } else if n == 13 {
        'd'
    } else if n == 14 {
        'e'
    } else {
        'f'
    }
}

/// Bytes in lower-case hexadecimal: two digits for each byte, the high
/// half first.
pub open spec fn hex_of(b: Seq<u8>) -> Seq<char> {
    Seq::new(
        2 * b.len(),
        |i: int|
            if i % 2 == 0 {
                hex_digit(b[i / 2] as int / 16)
            } else {
                hex_digit(b[i / 2] as int % 16)
            },
    )
}

/// The value of a hexadecimal digit of either case.
pub open spec fn hex_value(c: char) -> Option<int> {
    let n = c as u32 as int;
    if 48 <= n <= 57 {
        Some(n - 48)
    } else if 97 <= n <= 102 {
        Some(n - 87)
    } else if 65 <= n <= 70 {
        Some(n - 55)
    } else {
        None
    }
}

/// The text is hexadecimal: digits of either case, an even number of them.
pub open spec fn is_hex(s: Seq<char>) -> bool {
    &&& s.len() % 2 == 0
    &&& forall|i: int| 0 <= i < s.len() ==> hex_value(#[trigger] s[i]) is Some
}

/// The bytes that a hexadecimal text stands for.
pub open spec fn unhex(s: Seq<char>) -> Seq<u8> {
    Seq::new(
        s.len() / 2,
        |i: int| (16 * hex_value(s[2 * i])->0 + hex_value(s[2 * i + 1])->0) as u8,
    )
}

/// Calls `hex::encode`, which writes each byte as two lower-case
/// hexadecimal digits, the high half first.
#[verifier::external_body]
pub(crate) fn hex_encode(data: &[u8]) -> (out: String)
    ensures
        out@ == hex_of(data@),
{
    hex::encode(data)
}

/// Calls `hex::decode`, which reads two digits of either case into each
/// byte and refuses a text of odd length or with any other character.
#[verifier::external_body]
pub(crate) fn hex_decode(s: &str) -> (out: Option<Vec<u8>>)
    ensures
        out is Some <==> is_hex(s@),
        out matches Some(v) ==> v@ == unhex(s@),
{
    hex::decode(s).ok()
}

/// The text without the characters `c` at its end.
pub open spec fn without_trailing(s: Seq<char>, c: char) -> Seq<char>
    decreases s.len(),
{
    if s.len() > 0 && s.last() == c {
        without_trailing(s.drop_last(), c)
    } else {
        s
    }
}

/// The text without the characters `c` at its start.
pub open spec fn without_leading(s: Seq<char>, c: char) -> Seq<char>
    decreases s.len(),
{
    if s.len() > 0 && s.first() == c {
        without_leading(s.drop_first(), c)
    } else {
        s
    }
}

/// Calls `str::trim_end_matches` with a character, which drops every
/// repetition of it from the end.
#[verifier::external_body]
pub(crate) fn trim_end_char(s: &str, c: char) -> (out: &str)
    ensures
        out@ == without_trailing(s@, c),
{
    s.trim_end_matches(c)
}

/// Calls `str::trim_start_matches` with a character, which drops every
/// repetition of it from the start.
#[verifier::external_body]
pub(crate) fn trim_start_char(s: &str, c: char) -> (out: &str)
    ensures
        out@ == without_leading(s@, c),
{
    s.trim_start_matches(c)
}

} // verus!
