//! Text helpers: decimal and hexadecimal rendering of numbers, string
//! comparison, and the conversion of raw module bytes to strings.

use vstd::prelude::*;
use vstd::utf8::*;
use vstd::string::StringSliceAdditionalSpecFns;

verus! {

/// The ASCII digit (or lower-case hex digit) for `d`.
pub open spec fn digit_char(d: int) -> char {
    if d < 10 {
        (d + 48) as char
    } else {
        (d + 87) as char
    }
}

/// The upper-case hex digit for `d`.
pub open spec fn upper_digit_char(d: int) -> char {
    if d < 10 {
        (d + 48) as char
    } else {
        (d + 55) as char
    }
}

/// Decimal rendering of `n`, as `{}` prints an unsigned integer.
pub open spec fn dec_chars(n: nat) -> Seq<char>
    decreases n,
{
    if n < 10 {
        seq![digit_char(n as int)]
    } else {
        dec_chars(n / 10).push(digit_char((n % 10) as int))
    }
}

/// Two lower-case hex digits of a byte, as `{:02x}` prints it.
pub open spec fn hex2_chars(n: u8) -> Seq<char> {
    seq![digit_char(n as int / 16), digit_char(n as int % 16)]
}

/// Two upper-case hex digits of a byte, as `{:02X}` prints it.
pub open spec fn hex2_upper_chars(n: u8) -> Seq<char> {
    seq![upper_digit_char(n as int / 16), upper_digit_char(n as int % 16)]
}

/// The characters of a byte sequence in which every byte is ASCII.
pub open spec fn ascii_chars(b: Seq<u8>) -> Seq<char> {
    Seq::new(b.len(), |i: int| b[i] as char)
}

pub open spec fn all_ascii(b: Seq<u8>) -> bool {
    forall|i: int| 0 <= i < b.len() ==> b[i] < 0x80
}

/// What `String::from_utf8_lossy` makes of a byte sequence.
pub uninterp spec fn spec_utf8_lossy(b: Seq<u8>) -> Seq<char>;

/// What `format!("{:?}", s)` makes of a string: the quoted, escaped text.
pub uninterp spec fn spec_debug_str(s: Seq<char>) -> Seq<char>;

fn digit(d: u64) -> (c: char)
    requires
        d < 16,
    ensures
        c == digit_char(d as int),
{
    if d < 10 {
        ((d as u8) + 48) as char
    } else {
        ((d as u8) + 87) as char
    }
}

fn upper_digit(d: u8) -> (c: char)
    requires
        d < 16,
    ensures
        c == upper_digit_char(d as int),
{
    if d < 10 {
        (d + 48) as char
    } else {
        (d + 55) as char
    }
}

/// Appends the decimal rendering of `n` to `v`.
pub fn push_dec(v: &mut Vec<char>, n: u64)
    ensures
        final(v)@ == old(v)@ + dec_chars(n as nat),
    decreases n,
{
    if n >= 10 {
        push_dec(v, n / 10);
    }
    v.push(digit(n % 10));
    proof {
        if n >= 10 {
            assert(dec_chars(n as nat) == dec_chars((n / 10) as nat).push(digit_char((n % 10) as int)));
        }
    }
}

/// Appends two lower-case hex digits of `n` to `v`.
pub fn push_hex2(v: &mut Vec<char>, n: u8)
    ensures
        final(v)@ == old(v)@ + hex2_chars(n),
{
    v.push(digit((n / 16) as u64));
    v.push(digit((n % 16) as u64));
}

/// Appends two upper-case hex digits of `n` to `v`.
pub fn push_hex2_upper(v: &mut Vec<char>, n: u8)
    ensures
        final(v)@ == old(v)@ + hex2_upper_chars(n),
{
    v.push(upper_digit(n / 16));
    v.push(upper_digit(n % 16));
}

/// Collects characters into a `String` (`Iterator::collect`).
#[verifier::external_body]
pub(crate) fn chars_to_string(v: &Vec<char>) -> (s: String)
    ensures
        s@ == v@,
{
    v.iter().collect::<String>()
}

/// Appends the characters of `s` to `v`.
pub fn push_str(v: &mut Vec<char>, s: &str)
    ensures
        final(v)@ == old(v)@ + s@,
{
    let n = s.unicode_len();
    let mut i: usize = 0;
    while i < n
        invariant
            n == s@.len(),
            i <= n,
            v@ == old(v)@ + s@.subrange(0, i as int),
        decreases n - i,
    {
        let c = s.get_char(i);
        v.push(c);
        i = i + 1;
        assert(s@.subrange(0, i as int) == s@.subrange(0, (i - 1) as int).push(c));
    }
    assert(s@.subrange(0, n as int) == s@);
}

/// Decimal rendering of `n` as a `String`.
pub fn dec_string(n: u64) -> (s: String)
    ensures
        s@ == dec_chars(n as nat),
{
    let mut v: Vec<char> = Vec::new();
    push_dec(&mut v, n);
    assert(v@ == dec_chars(n as nat));
    chars_to_string(&v)
}

/// `String::from_utf8_lossy`: decodes bytes as UTF-8, each invalid sequence
/// becoming U+FFFD. Its documentation states that valid UTF-8 is decoded
/// as it stands; what invalid input becomes is left to the name.
#[verifier::external_body]
pub(crate) fn utf8_lossy(b: &[u8]) -> (s: String)
    ensures
        s@ == spec_utf8_lossy(b@),
        valid_utf8(b@) ==> s@ == decode_utf8(b@),
{
    String::from_utf8_lossy(b).into_owned()
}

/// `format!("{:?}", s)`: the string in double quotes with the escapes of
/// `str::escape_debug`. The escaping itself is left to the name.
#[verifier::external_body]
pub(crate) fn debug_str(s: &str) -> (r: String)
    ensures
        r@ == spec_debug_str(s@),
{
    format!("{:?}", s)
}

/// ASCII bytes are valid UTF-8 and decode to the characters of the same codes.
pub proof fn lemma_ascii_utf8(b: Seq<u8>)
    requires
        all_ascii(b),
    ensures
        valid_utf8(b),
        decode_utf8(b) == ascii_chars(b),
    decreases b.len(),
{
    if b.len() > 0 {
        let rest = b.subrange(1, b.len() as int);
        assert(pop_first_scalar(b) == rest);
        lemma_ascii_utf8(rest);
        assert(valid_first_scalar(b));
        assert(valid_utf8(b));
        let b0 = b[0];
        assert(b0 & 0x7f == b0) by (bit_vector)
            requires
                b0 < 0x80,
        ;
        assert(decode_first_scalar(b) == b[0] as u32);
        assert(decode_utf8(b) == seq![b[0] as char] + decode_utf8(rest));
        assert(decode_utf8(b) =~= ascii_chars(b));
    }
}

/// Equality of two string slices, by their characters.
pub fn str_eq(a: &str, b: &str) -> (r: bool)
    ensures
        r == (a@ == b@),
{
    let x = a.as_bytes();
    let y = b.as_bytes();
    proof {
        encode_utf8_decode_utf8(a@);
        encode_utf8_decode_utf8(b@);
    }
    if x.len() != y.len() {
        return false;
    }
    let mut i: usize = 0;
    while i < x.len()
        invariant
            x.len() == y.len(),
            x@ == a.spec_bytes(),
            y@ == b.spec_bytes(),
            i <= x.len(),
            forall|j: int| 0 <= j < i ==> x@[j] == y@[j],
        decreases x.len() - i,
    {
        if x[i] != y[i] {
            assert(x@[i as int] != y@[i as int]);
            assert(x@ != y@);
            return false;
        }
        i = i + 1;
    }
    assert(x@ =~= y@);
    true
}

/// `s` as an owned `String`.
pub fn str_string(s: &str) -> (r: String)
    ensures
        r@ == s@,
{
    let mut v: Vec<char> = Vec::new();
    push_str(&mut v, s);
    chars_to_string(&v)
}

/// The message `pre`, the decimal rendering of `n`, then `post`.
pub fn num_msg(pre: &str, n: u64, post: &str) -> (r: String)
    ensures
        r@ == pre@ + dec_chars(n as nat) + post@,
{
    let mut v: Vec<char> = Vec::new();
    push_str(&mut v, pre);
    push_dec(&mut v, n);
    push_str(&mut v, post);
    chars_to_string(&v)
}

/// The message `pre`, `a` in decimal, `mid`, `b` in decimal.
pub fn num2_msg(pre: &str, a: u64, mid: &str, b: u64) -> (r: String)
    ensures
        r@ == pre@ + dec_chars(a as nat) + mid@ + dec_chars(b as nat),
{
    let mut v: Vec<char> = Vec::new();
    push_str(&mut v, pre);
    push_dec(&mut v, a);
    push_str(&mut v, mid);
    push_dec(&mut v, b);
    chars_to_string(&v)
}

/// The message `pre` followed by the decimal rendering of `n`.
pub fn pre_num(pre: &str, n: u64) -> (r: String)
    ensures
        r@ == pre@ + dec_chars(n as nat),
{
    let mut v: Vec<char> = Vec::new();
    push_str(&mut v, pre);
    push_dec(&mut v, n);
    chars_to_string(&v)
}

} // verus!
