//! Verified text building blocks: decimal formatting of integers and JSON
//! string escaping.  Every byte the reconciler sends is produced by these
//! functions, so their contracts pin the exact character sequences.

use vstd::prelude::*;
use vstd::string::*;

verus! {

/// String slice equality, stated over the character sequences.
pub fn str_eq(a: &str, b: &str) -> (r: bool)
    ensures
        r == (a@ == b@),
{
    let sa: String = a.to_owned();
    let sb: String = b.to_owned();
    sa == sb
}

/// The decimal digit character for one digit value.
pub open spec fn dec_digit(d: int) -> char {
    if d == 0 { '0' } else if d == 1 { '1' } else if d == 2 { '2' } else if d == 3 { '3' }
    else if d == 4 { '4' } else if d == 5 { '5' } else if d == 6 { '6' } else if d == 7 { '7' }
    else if d == 8 { '8' } else { '9' }
}

/// The decimal text of a non-negative integer, most significant digit first.
pub open spec fn dec_str(n: int) -> Seq<char>
    decreases n when n >= 0
{
    if n < 10 {
        seq![dec_digit(n)]
    } else {
        dec_str(n / 10) + seq![dec_digit(n % 10)]
    }
}

/// The decimal text of a signed integer: a minus sign before the magnitude.
pub open spec fn int_str(n: int) -> Seq<char> {
    if n < 0 {
        seq!['-'] + dec_str(-n)
    } else {
        dec_str(n)
    }
}

/// One decimal digit as a string slice.
fn digit_str(d: u32) -> (r: &'static str)
    requires
        d < 10,
    ensures
        r@ == seq![dec_digit(d as int)],
{
    proof {
        reveal_strlit("0");
        reveal_strlit("1");
        reveal_strlit("2");
        reveal_strlit("3");
        reveal_strlit("4");
        reveal_strlit("5");
        reveal_strlit("6");
        reveal_strlit("7");
        reveal_strlit("8");
        reveal_strlit("9");
    }
    let r = match d {
        0 => "0",
        1 => "1",
        2 => "2",
        3 => "3",
        4 => "4",
        5 => "5",
        6 => "6",
        7 => "7",
        8 => "8",
        _ => "9",
    };
    proof {
        assert(r@ =~= seq![dec_digit(d as int)]);
    }
    r
}

/// Formats a non-negative integer in decimal.
pub fn format_u32(n: u32) -> (r: String)
    ensures
        r@ == dec_str(n as int),
    decreases n,
{
    if n < 10 {
        digit_str(n).to_owned()
    } else {
        let mut s = format_u32(n / 10);
        s.append(digit_str(n % 10));
        s
    }
}

/// Formats a signed integer in decimal.
pub fn format_i32(n: i32) -> (r: String)
    ensures
        r@ == int_str(n as int),
{
    if n >= 0 {
        format_u32(n as u32)
    } else {
        proof {
            reveal_strlit("-");
        }
        let m: u32 = (-(n as i64)) as u32;
        let s: String = "-".to_owned();
        let mag = format_u32(m);
        let r = s.concat(mag.as_str());
        proof {
            assert("-"@ =~= seq!['-']);
        }
        r
    }
}

/// The boolean keywords of JSON.
pub open spec fn bool_str_model(b: bool) -> Seq<char> {
    if b { "true"@ } else { "false"@ }
}

/// A boolean as JSON text.
pub fn bool_str(b: bool) -> (r: &'static str)
    ensures
        r@ == bool_str_model(b),
{
    if b { "true" } else { "false" }
}

/// The hexadecimal digit character for one digit value.
pub open spec fn hex_digit(d: int) -> char {
    if d < 10 { dec_digit(d) }
    else if d == 10 { 'a' } else if d == 11 { 'b' } else if d == 12 { 'c' }
    else if d == 13 { 'd' } else if d == 14 { 'e' } else { 'f' }
}

/// One hexadecimal digit as a string slice.
fn hex_str(d: u32) -> (r: &'static str)
    requires
        d < 16,
    ensures
        r@ == seq![hex_digit(d as int)],
{
    if d < 10 {
        digit_str(d)
    } else {
        proof {
            reveal_strlit("a");
            reveal_strlit("b");
            reveal_strlit("c");
            reveal_strlit("d");
            reveal_strlit("e");
            reveal_strlit("f");
        }
        let r = match d {
            10 => "a",
            11 => "b",
            12 => "c",
            13 => "d",
            14 => "e",
            _ => "f",
        };
        proof {
            assert(r@ =~= seq![hex_digit(d as int)]);
        }
        r
    }
}

/// How one character is written inside a JSON string: quote and backslash
/// get a backslash escape, the named control characters their short forms,
/// any other control character a `\u00XX` escape, and everything else stands
/// as itself.
pub open spec fn esc_char(c: char) -> Seq<char> {
    if c == '"' { seq!['\\', '"'] }
    else if c == '\\' { seq!['\\', '\\'] }
    else if c == '\u{0008}' { seq!['\\', 'b'] }
    else if c == '\u{000C}' { seq!['\\', 'f'] }
    else if c == '\n' { seq!['\\', 'n'] }
    else if c == '\r' { seq!['\\', 'r'] }
    else if c == '\t' { seq!['\\', 't'] }
    else if (c as int) < 32 {
        seq!['\\', 'u', '0', '0', hex_digit((c as int) / 16), hex_digit((c as int) % 16)]
    } else {
        seq![c]
    }
}

/// A whole string as it is written inside JSON quotes.
pub open spec fn json_escaped(s: Seq<char>) -> Seq<char>
    decreases s.len()
{
    if s.len() == 0 {
        Seq::empty()
    } else {
        json_escaped(s.drop_last()) + esc_char(s.last())
    }
}

/// The escape text for one character.
fn esc_char_str(c: char) -> (r: String)
    ensures
        r@ == esc_char(c),
{
    proof {
        reveal_strlit("\\\"");
        reveal_strlit("\\\\");
        reveal_strlit("\\b");
        reveal_strlit("\\f");
        reveal_strlit("\\n");
        reveal_strlit("\\r");
        reveal_strlit("\\t");
        reveal_strlit("\\u00");
    }
    let code = c as u32;
    let r: String = if c == '"' {
        "\\\"".to_owned()
    } else if c == '\\' {
        "\\\\".to_owned()
    } else if c == '\u{0008}' {
        "\\b".to_owned()
    } else if c == '\u{000C}' {
        "\\f".to_owned()
    } else if c == '\n' {
        "\\n".to_owned()
    } else if c == '\r' {
        "\\r".to_owned()
    } else if c == '\t' {
        "\\t".to_owned()
    } else if code < 32 {
        let mut s = "\\u00".to_owned();
        s.append(hex_str(code / 16));
        s.append(hex_str(code % 16));
        s
    } else {
        char_to_string(c)
    };
    proof {
        assert(r@ =~= esc_char(c));
    }
    r
}

/// Relies on `String::push` of std: appends exactly the one character.
#[verifier::external_body]
fn char_to_string(c: char) -> (r: String)
    ensures
        r@ == seq![c],
{
    let mut s = String::new();
    s.push(c);
    s
}

/// Escapes a string for inclusion between JSON quotes.
pub fn json_escape(s: &str) -> (r: String)
    ensures
        r@ == json_escaped(s@),
{
    let len = s.unicode_len();
    let mut out = String::new();
    let mut i: usize = 0;
    while i < len
        invariant
            0 <= i <= len,
            len == s@.len(),
            out@ == json_escaped(s@.subrange(0, i as int)),
        decreases len - i,
    {
        let c = s.get_char(i);
        let piece = esc_char_str(c);
        out.append(piece.as_str());
        proof {
            let pre = s@.subrange(0, i as int);
            let pre1 = s@.subrange(0, i as int + 1);
            assert(pre1.drop_last() =~= pre);
            assert(pre1.last() == s@[i as int]);
        }
        i = i + 1;
    }
    proof {
        assert(s@.subrange(0, len as int) =~= s@);
    }
    out
}

} // verus!
