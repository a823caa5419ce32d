//! Small text utilities: decimal rendering of integers, JSON string
//! escaping, character-exact string comparison, and the bridge between
//! byte sequences and `String` values.

use vstd::prelude::*;
use vstd::utf8::{decode_utf8, valid_utf8};

verus! {

// ---------------------------------------------------------------------
// decimal rendering

/// The character for one decimal digit value.
pub open spec fn digit_char(d: int) -> char {
    if d == 0 { '0' }
    else if d == 1 { '1' }
    else if d == 2 { '2' }
    else if d == 3 { '3' }
    else if d == 4 { '4' }
    else if d == 5 { '5' }
    else if d == 6 { '6' }
    else if d == 7 { '7' }
    else if d == 8 { '8' }
    else { '9' }
}

/// The decimal digits of a non-negative integer, most significant first.
pub open spec fn spec_digits(n: int) -> Seq<char>
    decreases n,
{
    if n < 10 {
        seq![digit_char(n)]
    } else {
        spec_digits(n / 10).push(digit_char(n % 10))
    }
}

/// The usual decimal rendering of an integer, with a leading minus sign
/// when it is negative.
pub open spec fn spec_int_text(n: int) -> Seq<char> {
    if n < 0 {
        seq!['-'].add(spec_digits(-n))
    } else {
        spec_digits(n)
    }
}

/// A one-character string for one decimal digit.
fn digit_text(d: u64) -> (r: String)
    requires
        d < 10,
    ensures
        r@ == seq![digit_char(d as int)],
{
    let r = if d == 0 { "0" }
    else if d == 1 { "1" }
    else if d == 2 { "2" }
    else if d == 3 { "3" }
    else if d == 4 { "4" }
    else if d == 5 { "5" }
    else if d == 6 { "6" }
    else if d == 7 { "7" }
    else { if d == 8 { "8" } else { "9" } };
    proof {
        reveal_strlit("0");
        reveal_strlit("1");
        reveal_strlit("2");
        reveal_strlit("3");
        reveal_strlit("4");
        reveal_strlit("5");
        reveal_strlit("6");
        reveal_strlit("7");
        reveal_strlit("8");
        reveal_strlit("9");
    }
    r.to_owned()
}

/// Renders a non-negative integer in decimal.
pub fn u64_text(n: u64) -> (r: String)
    ensures
        r@ == spec_digits(n as int),
    decreases n,
{
    if n < 10 {
        digit_text(n)
    } else {
        let mut r = u64_text(n / 10);
        let d = digit_text(n % 10);
        r.append(d.as_str());
        assert(r@ == spec_digits(n as int / 10).push(digit_char(n as int % 10)));
        r
    }
}

/// Renders a signed integer in decimal.
pub fn i64_text(n: i64) -> (r: String)
    ensures
        r@ == spec_int_text(n as int),
{
    if n >= 0 {
        u64_text(n as u64)
    } else {
        // -(i64::MIN) does not fit an i64, so negate in u64.
        let mag: u64 = (n as i128 * -1) as u64;
        assert(mag == -(n as int)) by (bit_vector)
            requires n < 0 && mag == (n as i128 * -1) as u64;
        let mut r = "-".to_owned();
        let d = u64_text(mag);
        r.append(d.as_str());
        proof {
            reveal_strlit("-");
            assert(r@ =~= spec_int_text(n as int));
        }
        r
    }
}

// ---------------------------------------------------------------------
// string comparison

/// Compares two string slices character by character.
pub fn str_eq(a: &str, b: &str) -> (r: bool)
    ensures
        r == (a@ == b@),
{
    let la = a.unicode_len();
    let lb = b.unicode_len();
    if la != lb {
        proof {
            assert(a@ != b@) by {
                assert(a@.len() != b@.len());
            }
        }
        return false;
    }
    let mut i: usize = 0;
    while i < la
        invariant
            la == a@.len(),
            la == b@.len(),
            i <= la,
            forall|j: int| 0 <= j < i ==> a@[j] == b@[j],
        decreases la - i,
    {
        if a.get_char(i) != b.get_char(i) {
            return false;
        }
        i += 1;
    }
    proof {
        assert(a@ =~= b@);
    }
    true
}

// ---------------------------------------------------------------------
// JSON string escaping

/// The character for one hexadecimal digit value.
pub open spec fn hex_char(d: int) -> char {
    if d < 10 { digit_char(d) }
    else if d == 10 { 'a' }
    else if d == 11 { 'b' }
    else if d == 12 { 'c' }
    else if d == 13 { 'd' }
    else if d == 14 { 'e' }
    else { 'f' }
}

/// How one character appears inside a JSON string literal.
pub open spec fn spec_escape_char(c: char) -> Seq<char> {
    if c == '"' { seq!['\\', '"'] }
    else if c == '\\' { seq!['\\', '\\'] }
    else if c == '\n' { seq!['\\', 'n'] }
    else if c == '\r' { seq!['\\', 'r'] }
    else if c == '\t' { seq!['\\', 't'] }
    else if (c as u32) < 32 {
        seq!['\\', 'u', '0', '0', hex_char(c as int / 16), hex_char(c as int % 16)]
    } else {
        seq![c]
    }
}

/// How a whole text appears inside a JSON string literal.
pub open spec fn spec_escape(s: Seq<char>) -> Seq<char>
    decreases s.len(),
{
    if s.len() == 0 {
        Seq::empty()
    } else {
        spec_escape(s.drop_last()).add(spec_escape_char(s.last()))
    }
}

/// A one-character string for one hexadecimal digit.
fn hex_text(d: u32) -> (r: String)
    requires
        d < 16,
    ensures
        r@ == seq![hex_char(d as int)],
{
    if d < 10 {
        digit_text(d as u64)
    } else {
        let r = if d == 10 { "a" }
        else if d == 11 { "b" }
        else if d == 12 { "c" }
        else if d == 13 { "d" }
        else { if d == 14 { "e" } else { "f" } };
        proof {
            reveal_strlit("a");
            reveal_strlit("b");
            reveal_strlit("c");
            reveal_strlit("d");
            reveal_strlit("e");
            reveal_strlit("f");
        }
        r.to_owned()
    }
}

/// Escapes one character for use inside a JSON string literal.
fn escape_char(c: char) -> (r: String)
    ensures
        r@ == spec_escape_char(c),
{
    if c == '"' {
        proof { reveal_strlit("\\\""); }
        let r = "\\\"".to_owned();
        assert(r@ =~= spec_escape_char(c));
        r
    } else if c == '\\' {
        proof { reveal_strlit("\\\\"); }
        let r = "\\\\".to_owned();
        assert(r@ =~= spec_escape_char(c));
        r
    } else if c == '\n' {
        proof { reveal_strlit("\\n"); }
        let r = "\\n".to_owned();
        assert(r@ =~= spec_escape_char(c));
        r
    } else if c == '\r' {
        proof { reveal_strlit("\\r"); }
        let r = "\\r".to_owned();
        assert(r@ =~= spec_escape_char(c));
        r
    } else if c == '\t' {
        proof { reveal_strlit("\\t"); }
        let r = "\\t".to_owned();
        assert(r@ =~= spec_escape_char(c));
        r
    } else if (c as u32) < 32 {
        let code = c as u32;
        proof { reveal_strlit("\\u00"); }
        let mut r = "\\u00".to_owned();
        let hi = hex_text(code / 16);
        let lo = hex_text(code % 16);
        r.append(hi.as_str());
        r.append(lo.as_str());
        assert(r@ =~= spec_escape_char(c));
        r
    } else {
        let r = char_text(c);
        assert(r@ =~= spec_escape_char(c));
        r
    }
}

/// Escapes a whole text for use inside a JSON string literal.
pub fn escape(s: &str) -> (r: String)
    ensures
        r@ == spec_escape(s@),
{
    let len = s.unicode_len();
    let mut r = String::new();
    let mut i: usize = 0;
    while i < len
        invariant
            len == s@.len(),
            i <= len,
            r@ == spec_escape(s@.take(i as int)),
        decreases len - i,
    {
        let e = escape_char(s.get_char(i));
        r.append(e.as_str());
        proof {
            assert(s@.take(i + 1 as int).drop_last() =~= s@.take(i as int));
            assert(s@.take(i + 1 as int).last() == s@[i as int]);
        }
        i += 1;
    }
    proof {
        assert(s@.take(len as int) =~= s@);
    }
    r
}

// ---------------------------------------------------------------------
// trusted bridges to std

/// Relies on String::push: appends exactly the given character.
#[verifier::external_body]
pub fn char_text(c: char) -> (r: String)
    ensures
        r@ == seq![c],
{
    let mut s = String::new();
    s.push(c);
    s
}

/// What std's lossy UTF-8 decoding returns for a byte sequence: a
/// function of the bytes alone (invalid sequences become replacement
/// characters by a fixed rule).
pub uninterp spec fn lossy_of(bytes: Seq<u8>) -> Seq<char>;

/// Relies on String::from_utf8_lossy: the result depends on the bytes
/// alone, and bytes that are valid UTF-8 are decoded exactly, with no
/// replacement characters.
#[verifier::external_body]
pub fn utf8_lossy(bytes: &[u8]) -> (r: String)
    ensures
        r@ == lossy_of(bytes@),
        valid_utf8(bytes@) ==> r@ == decode_utf8(bytes@),
{
    String::from_utf8_lossy(bytes).into_owned()
}

} // verus!
