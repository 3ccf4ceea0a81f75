//! Small verified helpers over strings and byte buffers: string-slice
//! equality, decimal rendering, and appending byte runs.

use vstd::prelude::*;

verus! {

use vstd::utf8::{encode_utf8, encode_utf8_decode_utf8};
use vstd::string::StringExecFns;

/// The UTF-8 bytes of a string's characters.
pub open spec fn spec_str_bytes(s: Seq<char>) -> Seq<u8> {
    encode_utf8(s)
}

/// String-slice equality, decided by comparing the UTF-8 bytes.
pub fn str_eq(a: &str, b: &str) -> (r: bool)
    ensures
        r == (a@ == b@),
{
    proof {
        encode_utf8_decode_utf8(a@);
        encode_utf8_decode_utf8(b@);
    }
    let ab = a.as_bytes();
    let bb = b.as_bytes();
    if ab.len() != bb.len() {
        return false;
    }
    let n = ab.len();
    let mut i: usize = 0;
    while i < n
        invariant
            n == ab@.len() == bb@.len(),
            i <= n,
            ab@ == encode_utf8(a@),
            bb@ == encode_utf8(b@),
            forall|j: int| 0 <= j < i ==> ab@[j] == bb@[j],
        decreases n - i,
    {
        if ab[i] != bb[i] {
            proof {
                if a@ == b@ {
                    assert(ab@ == bb@);
                }
            }
            return false;
        }
        i = i + 1;
    }
    assert(ab@ =~= bb@);
    true
}

/// The decimal digits of `n`, most significant first, as ASCII bytes.
pub open spec fn spec_dec_u64(n: u64) -> Seq<u8>
    decreases n,
{
    if n < 10 {
        seq![(0x30 + n) as u8]
    } else {
        spec_dec_u64((n / 10) as u64) + seq![(0x30 + n % 10) as u8]
    }
}

/// Appends the decimal rendering of `n` to `out`.
pub fn push_dec_u64(out: &mut Vec<u8>, n: u64)
    ensures
        final(out)@ == old(out)@ + spec_dec_u64(n),
    decreases n,
{
    if n < 10 {
        out.push((0x30 + n) as u8);
    } else {
        push_dec_u64(out, n / 10);
        out.push((0x30 + n % 10) as u8);
    }
}

/// The decimal rendering of a signed number: a minus sign and the
/// magnitude's digits, or just the digits.
pub open spec fn spec_dec_i64(n: i64) -> Seq<u8> {
    if n >= 0 {
        spec_dec_u64(n as u64)
    } else {
        seq![0x2du8] + spec_dec_u64((-(n as int)) as u64)
    }
}

/// Appends the decimal rendering of `n` to `out`, sign included.
pub fn push_dec_i64(out: &mut Vec<u8>, n: i64)
    ensures
        final(out)@ == old(out)@ + spec_dec_i64(n),
{
    if n >= 0 {
        push_dec_u64(out, n as u64);
    } else {
        out.push(0x2d);
        if n == i64::MIN {
            push_dec_u64(out, 9223372036854775808u64);
        } else {
            push_dec_u64(out, (-n) as u64);
        }
        assert(out@ =~= old(out)@ + spec_dec_i64(n));
    }
}

/// Appends a byte run to `out`.
pub fn push_bytes(out: &mut Vec<u8>, s: &[u8])
    ensures
        final(out)@ == old(out)@ + s@,
{
    let n = s.len();
    let mut i: usize = 0;
    while i < n
        invariant
            n == s@.len(),
            i <= n,
            out@ == old(out)@ + s@.take(i as int),
        decreases n - i,
    {
        out.push(s[i]);
        assert(s@.take(i as int) + seq![s@[i as int]] =~= s@.take(i + 1));
        i = i + 1;
    }
    assert(s@.take(n as int) =~= s@);
}

/// Appends the UTF-8 bytes of a string slice to `out`.
pub fn push_str_bytes(out: &mut Vec<u8>, s: &str)
    ensures
        final(out)@ == old(out)@ + spec_str_bytes(s@),
{
    push_bytes(out, s.as_bytes());
}

/// The ASCII byte of one hexadecimal digit, lower case.
pub open spec fn spec_hex_digit(d: u8) -> u8 {
    if d < 10 {
        (0x30 + d) as u8
    } else {
        (0x57 + d) as u8
    }
}

/// How one byte of a JSON string body is written: quote and backslash
/// escaped, control bytes as `\u00XX`, everything else as itself.
/// Bytes of multi-byte UTF-8 sequences are above 0x7f and pass
/// through, so escaping UTF-8 text byte by byte leaves it valid JSON.
pub open spec fn spec_escape_byte(x: u8) -> Seq<u8> {
    if x == 0x22 || x == 0x5c {
        seq![0x5cu8, x]
    } else if x < 0x20 {
        seq![0x5cu8, 0x75u8, 0x30u8, 0x30u8, spec_hex_digit(x >> 4), spec_hex_digit(x & 0xf)]
    } else {
        seq![x]
    }
}

/// A byte run written as the body of a JSON string.
pub open spec fn spec_json_escape(b: Seq<u8>) -> Seq<u8>
    decreases b.len(),
{
    if b.len() == 0 {
        seq![]
    } else {
        spec_escape_byte(b[0]) + spec_json_escape(b.drop_first())
    }
}

fn hex_digit(d: u8) -> (r: u8)
    requires
        d < 16,
    ensures
        r == spec_hex_digit(d),
{
    if d < 10 {
        0x30 + d
    } else {
        0x57 + d
    }
}

/// Appends a byte run to `out`, escaped as the body of a JSON string.
pub fn push_json_escaped(out: &mut Vec<u8>, s: &[u8])
    ensures
        final(out)@ == old(out)@ + spec_json_escape(s@),
{
    let n = s.len();
    let mut i: usize = 0;
    proof {
        assert(s@.skip(0) =~= s@);
    }
    while i < n
        invariant
            n == s@.len(),
            i <= n,
            out@ + spec_json_escape(s@.skip(i as int)) == old(out)@ + spec_json_escape(s@),
        decreases n - i,
    {
        let b = s[i];
        let ghost prev = out@;
        if b == 0x22 || b == 0x5c {
            out.push(0x5c);
            out.push(b);
        } else if b < 0x20 {
            assert(b >> 4 < 16 && b & 0xf < 16) by (bit_vector);
            out.push(0x5c);
            out.push(0x75);
            out.push(0x30);
            out.push(0x30);
            out.push(hex_digit(b >> 4));
            out.push(hex_digit(b & 0xf));
        } else {
            out.push(b);
        }
        proof {
            let tail = s@.skip(i as int);
            assert(tail[0] == s@[i as int]);
            assert(tail.drop_first() =~= s@.skip(i + 1));
            assert(out@ =~= prev + spec_escape_byte(b));
            assert((prev + spec_escape_byte(b)) + spec_json_escape(s@.skip(i + 1)) =~= prev + (
            spec_escape_byte(b) + spec_json_escape(s@.skip(i + 1))));
        }
        i = i + 1;
    }
    proof {
        assert(s@.skip(n as int) =~= Seq::<u8>::empty());
        assert(out@ + Seq::<u8>::empty() =~= out@);
    }
}

/// The decimal digits of `n`, most significant first, as characters.
pub open spec fn spec_dec_chars(n: u64) -> Seq<char>
    decreases n,
{
    if n < 10 {
        seq![spec_digit_char(n)]
    } else {
        spec_dec_chars((n / 10) as u64) + seq![spec_digit_char(n % 10)]
    }
}

/// The character for one decimal digit.
pub open spec fn spec_digit_char(d: u64) -> char {
    if d == 0 { '0' }
    else if d == 1 { '1' }
    else if d == 2 { '2' }
    else if d == 3 { '3' }
    else if d == 4 { '4' }
    else if d == 5 { '5' }
    else if d == 6 { '6' }
    else if d == 7 { '7' }
    else if d == 8 { '8' }
    else { '9' }
}

fn digit_str(d: u64) -> (s: &'static str)
    requires
        d < 10,
    ensures
        s@ =~= seq![spec_digit_char(d)],
{
    proof {
        reveal_strlit("0");
        reveal_strlit("1");
        reveal_strlit("2");
        reveal_strlit("3");
        reveal_strlit("4");
        reveal_strlit("5");
        reveal_strlit("6");
        reveal_strlit("7");
        reveal_strlit("8");
        reveal_strlit("9");
    }
    if d == 0 { "0" }
    else if d == 1 { "1" }
    else if d == 2 { "2" }
    else if d == 3 { "3" }
    else if d == 4 { "4" }
    else if d == 5 { "5" }
    else if d == 6 { "6" }
    else if d == 7 { "7" }
    else if d == 8 { "8" }
    else { "9" }
}

/// Appends the decimal rendering of `n` to a `String`.
pub fn append_dec_u64(out: &mut String, n: u64)
    ensures
        final(out)@ == old(out)@ + spec_dec_chars(n),
    decreases n,
{
    if n < 10 {
        out.append(digit_str(n));
    } else {
        append_dec_u64(out, n / 10);
        out.append(digit_str(n % 10));
    }
}

} // verus!
