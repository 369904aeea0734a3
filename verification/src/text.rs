//! The texts that the library writes into its errors and descriptions: numbers
//! in decimal and hexadecimal digits, and quoted strings.
use vstd::prelude::*;
use vstd::string::*;

verus! {

/// The decimal digit for a number below ten.
pub open spec fn decimal_digit(d: nat) -> char {
    if d == 0 {
        '0'
    } else if d == 1 {
        '1'
    } else if d == 2 {
        '2'
    } else if d == 3 {
        '3'
    } else if d == 4 {
        '4'
    } else if d == 5 {
        '5'
    } else if d == 6 {
        '6'
    } else if d == 7 {
        '7'
    } else if d == 8 {
        '8'
    } else {
        '9'
    }
}

/// The digit for a number below sixteen, in upper case.
pub open spec fn hex_digit(d: nat) -> char {
    if d < 10 {
        decimal_digit(d)
    } else if d == 10 {
        'A'
    } else if d == 11 {
        'B'
    } else if d == 12 {
        'C'
    } else if d == 13 {
        'D'
    } else if d == 14 {
        'E'
    } else {
        'F'
    }
}

/// A number in decimal digits, without leading zeros.
pub open spec fn decimal_text(n: nat) -> Seq<char>
    decreases n,
{
    if n < 10 {
        seq![decimal_digit(n)]
    } else {
        decimal_text(n / 10).push(decimal_digit(n % 10))
    }
}

/// A whole number in decimal digits, with a minus sign before a negative one.
pub open spec fn signed_decimal_text(n: int) -> Seq<char> {
    if n < 0 {
        seq!['-'] + decimal_text((-n) as nat)
    } else {
        decimal_text(n as nat)
    }
}

/// A 16-bit number in four hexadecimal digits, upper case, leading zeros kept.
pub open spec fn hex4_text(n: nat) -> Seq<char> {
    seq![
        hex_digit(n / 4096 % 16),
        hex_digit(n / 256 % 16),
        hex_digit(n / 16 % 16),
        hex_digit(n % 16),
    ]
}

fn hex_digit_str(d: u16) -> (r: &'static str)
    requires
        d < 16,
    ensures
        r@ == seq![hex_digit(d as nat)],
{
    proof {
        reveal_strlit("0");
        reveal_strlit("1");
        reveal_strlit("2");
        reveal_strlit("3");
        reveal_strlit("4");
        reveal_strlit("5");
        reveal_strlit("6");
        reveal_strlit("7");
        reveal_strlit("8");
        reveal_strlit("9");
        reveal_strlit("A");
        reveal_strlit("B");
        reveal_strlit("C");
        reveal_strlit("D");
        reveal_strlit("E");
        reveal_strlit("F");
    }
    let r = if d == 0 {
        "0"
    } else if d == 1 {
        "1"
    } else if d == 2 {
        "2"
    } else if d == 3 {
        "3"
    } else if d == 4 {
        "4"
    } else if d == 5 {
        "5"
    } else if d == 6 {
        "6"
    } else if d == 7 {
        "7"
    } else if d == 8 {
        "8"
    } else if d == 9 {
        "9"
    } else if d == 10 {
        "A"
    } else if d == 11 {
        "B"
    } else if d == 12 {
        "C"
    } else if d == 13 {
        "D"
    } else if d == 14 {
        "E"
    } else {
        "F"
    };
    assert(r@ =~= seq![hex_digit(d as nat)]);
    r
}

/// Writes a number in decimal digits.
pub fn decimal(n: u64) -> (r: String)
    ensures
        r@ == decimal_text(n as nat),
    decreases n,
{
    if n < 10 {
        let r = String::from_str(hex_digit_str(n as u16));
        r
    } else {
        let mut r = decimal(n / 10);
        r.append(hex_digit_str((n % 10) as u16));
        assert(r@ =~= decimal_text(n as nat));
        r
    }
}

/// Writes a whole number in decimal digits, with a minus sign before a
/// negative one.
pub fn signed_decimal(n: i64) -> (r: String)
    ensures
        r@ == signed_decimal_text(n as int),
{
    if n < 0 {
        proof {
            reveal_strlit("-");
        }
        let magnitude: u64 = if n == i64::MIN {
            9223372036854775808u64
        } else {
            (-n) as u64
        };
        let mut r = String::from_str("-");
        let digits = decimal(magnitude);
        r.append(digits.as_str());
        assert(r@ =~= signed_decimal_text(n as int));
        r
    } else {
        decimal(n as u64)
    }
}

/// Writes a 16-bit number in four hexadecimal digits, upper case.
pub fn hex4(n: u16) -> (r: String)
    ensures
        r@ == hex4_text(n as nat),
{
    let mut r = String::from_str(hex_digit_str(n / 4096 % 16));
    r.append(hex_digit_str(n / 256 % 16));
    r.append(hex_digit_str(n / 16 % 16));
    r.append(hex_digit_str(n % 16));
    assert(r@ =~= hex4_text(n as nat));
    r
}

/// Whether `index` is the place of the first zero byte in `bytes`.
pub open spec fn is_first_nul(bytes: Seq<u8>, index: int) -> bool {
    &&& 0 <= index < bytes.len()
    &&& bytes[index] == 0
    &&& forall|j: int| 0 <= j < index ==> bytes[j] != 0
}

/// Whether `bytes` holds no zero byte.
pub open spec fn nul_free(bytes: Seq<u8>) -> bool {
    forall|j: int| 0 <= j < bytes.len() ==> bytes[j] != 0
}

/// The place of the first zero byte in the UTF-8 bytes of `s`, if it has one.
pub fn first_nul(s: &str) -> (r: Option<usize>)
    ensures
        match r {
            Some(index) => is_first_nul(s.spec_bytes(), index as int),
            None => nul_free(s.spec_bytes()),
        },
{
    let bytes = s.as_bytes();
    let mut index: usize = 0;
    while index < bytes.len()
        invariant
            bytes@ == s.spec_bytes(),
            0 <= index <= bytes@.len(),
            forall|j: int| 0 <= j < index ==> bytes@[j] != 0,
        decreases bytes@.len() - index,
    {
        if bytes[index] == 0 {
            return Some(index);
        }
        index = index + 1;
    }
    None
}

/// What the standard library says of a zero byte found at `position` in a text
/// that must hold none.
pub open spec fn nul_error_text(position: nat) -> Seq<char> {
    "nul byte found in provided data at position: "@ + decimal_text(position)
}

/// Writes what the standard library says of a zero byte found at `position`,
/// after the words of `prefix`.
pub fn nul_error_message(prefix: &str, position: usize) -> (r: String)
    ensures
        r@ == prefix@ + nul_error_text(position as nat),
{
    let mut r = String::from_str(prefix);
    r.append("nul byte found in provided data at position: ");
    let digits = decimal(position as u64);
    r.append(digits.as_str());
    assert(r@ =~= prefix@ + nul_error_text(position as nat));
    r
}

/// What the standard library's `Debug` writes for a string: the string between
/// double quotes, with the characters that need it escaped.
pub uninterp spec fn debug_text(s: Seq<char>) -> Seq<char>;

/// Calls the `Debug` implementation of `str` through `format!`. The contract
/// only names what comes back: it is fixed by the characters of `s`.
#[verifier::external_body]
pub(crate) fn debug_quoted(s: &str) -> (r: String)
    ensures
        r@ == debug_text(s@),
{
    format!("{:?}", s)
}

} // verus!
