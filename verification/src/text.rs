//! Text helpers shared by the formatting and reporting code: lossy
//! decoding of captured bytes and decimal rendering of numbers.

use vstd::prelude::*;
use vstd::string::StringExecFns;

verus! {

/// The sequence of characters that [`String::from_utf8_lossy`] yields
/// for a given byte sequence.  The decoding is a pure function of the
/// bytes alone; only the facts stated where this name is applied are
/// known of it.
pub uninterp spec fn lossy_of(b: Seq<u8>) -> Seq<char>;

/// True when every byte is ASCII.
pub open spec fn ascii_bytes(b: Seq<u8>) -> bool {
    forall|i: int| 0 <= i < b.len() ==> b[i] < 128
}

/// The characters corresponding one-for-one to a sequence of ASCII bytes.
pub open spec fn chars_of_ascii(b: Seq<u8>) -> Seq<char> {
    b.map_values(|x: u8| x as char)
}

/// Relies on `String::from_utf8_lossy`: the result depends on the bytes
/// alone, and valid UTF-8 (hence in particular ASCII) is decoded
/// unchanged, one character per byte.
#[verifier::external_body]
pub(crate) fn bytes_to_string_lossy(b: &Vec<u8>) -> (r: String)
    ensures
        r@ == lossy_of(b@),
        ascii_bytes(b@) ==> r@ == chars_of_ascii(b@),
{
    String::from_utf8_lossy(b).into_owned()
}

/// The decimal digits of `n`, most significant first.
pub open spec fn dec_digits(n: nat) -> Seq<char>
    decreases n,
{
    if n < 10 {
        seq![digit_char(n)]
    } else {
        dec_digits(n / 10).push(digit_char(n % 10))
    }
}

/// The character for a single decimal digit.
pub open spec fn digit_char(d: nat) -> char {
    if d == 0 {
        '0'
    } else if d == 1 {
        '1'
    } else if d == 2 {
        '2'
    } else if d == 3 {
        '3'
    } else if d == 4 {
        '4'
    } else if d == 5 {
        '5'
    } else if d == 6 {
        '6'
    } else if d == 7 {
        '7'
    } else if d == 8 {
        '8'
    } else {
        '9'
    }
}

/// The decimal rendering of a signed number: a minus sign followed by
/// the digits of its magnitude when negative, the digits alone otherwise.
pub open spec fn dec_int(n: int) -> Seq<char> {
    if n < 0 {
        seq!['-'] + dec_digits((-n) as nat)
    } else {
        dec_digits(n as nat)
    }
}

/// A one-character string holding a single decimal digit.
fn digit_string(d: u64) -> (s: String)
    requires
        d < 10,
    ensures
        s@ =~= seq![digit_char(d as nat)],
{
    let s = match d {
        0 => "0",
        1 => "1",
        2 => "2",
        3 => "3",
        4 => "4",
        5 => "5",
        6 => "6",
        7 => "7",
        8 => "8",
        _ => "9",
    };
    proof {
        reveal_strlit("0");
        reveal_strlit("1");
        reveal_strlit("2");
        reveal_strlit("3");
        reveal_strlit("4");
        reveal_strlit("5");
        reveal_strlit("6");
        reveal_strlit("7");
        reveal_strlit("8");
        reveal_strlit("9");
    }
    String::from_str(s)
}

/// The decimal rendering of an unsigned number.
pub(crate) fn dec_string_u64(n: u64) -> (s: String)
    ensures
        s@ == dec_digits(n as nat),
    decreases n,
{
    if n < 10 {
        digit_string(n)
    } else {
        let prefix = dec_string_u64(n / 10);
        let last = digit_string(n % 10);
        prefix.concat(last.as_str())
    }
}

/// The decimal rendering of a signed number.
pub(crate) fn dec_string_i64(n: i64) -> (s: String)
    ensures
        s@ == dec_int(n as int),
{
    if n < 0 {
        let magnitude: u64 = if n == i64::MIN {
            9223372036854775808u64
        } else {
            (-n) as u64
        };
        let digits = dec_string_u64(magnitude);
        let sign = String::from_str("-");
        proof {
            reveal_strlit("-");
        }
        let s = sign.concat(digits.as_str());
        assert(s@ =~= dec_int(n as int));
        s
    } else {
        dec_string_u64(n as u64)
    }
}

} // verus!
