//! Character-level text building blocks: padding, centering, clipping at a
//! width, and decimal digit strings.  All specifications speak about
//! sequences of characters, so no operation can ever split a multi-byte
//! character.

use vstd::prelude::*;

verus! {

/// The continuation marker that ends a clipped cell.
pub open spec fn marker() -> char {
    '<'
}

/// `n` space characters.
pub open spec fn spaces(n: nat) -> Seq<char> {
    Seq::new(n, |i: int| ' ')
}

/// `n` zero characters.
pub open spec fn zeros(n: nat) -> Seq<char> {
    Seq::new(n, |i: int| '0')
}

/// `n` dash characters.
pub open spec fn dashes(n: nat) -> Seq<char> {
    Seq::new(n, |i: int| '-')
}

/// `s` padded with spaces on the left up to width `w`; `s` itself if it
/// already fills the width.
pub open spec fn pad_left(s: Seq<char>, w: nat) -> Seq<char> {
    if s.len() >= w {
        s
    } else {
        spaces((w - s.len()) as nat) + s
    }
}

/// `s` padded with spaces on the right up to width `w`.
pub open spec fn pad_right(s: Seq<char>, w: nat) -> Seq<char> {
    if s.len() >= w {
        s
    } else {
        s + spaces((w - s.len()) as nat)
    }
}

/// `s` centered in width `w`; when the padding is odd the extra space goes
/// to the right.
pub open spec fn center(s: Seq<char>, w: nat) -> Seq<char> {
    if s.len() >= w {
        s
    } else {
        let pad = (w - s.len()) as nat;
        spaces(pad / 2) + s + spaces((pad - pad / 2) as nat)
    }
}

/// `s` cut down to at most `w` characters: a string that overflows keeps its
/// first `w - 1` characters and ends in the continuation marker.
pub open spec fn clip(s: Seq<char>, w: nat) -> Seq<char> {
    if s.len() <= w {
        s
    } else {
        s.take(w as int - 1).push(marker())
    }
}

/// The character for a single decimal digit.
pub open spec fn digit(n: nat) -> char {
    if n == 0 {
        '0'
    } else if n == 1 {
        '1'
    } else if n == 2 {
        '2'
    } else if n == 3 {
        '3'
    } else if n == 4 {
        '4'
    } else if n == 5 {
        '5'
    } else if n == 6 {
        '6'
    } else if n == 7 {
        '7'
    } else if n == 8 {
        '8'
    } else {
        '9'
    }
}

/// The plain decimal notation of `n`, most significant digit first, with no
/// separators and no leading zeros (a single zero for `n == 0`).
pub open spec fn dec_nat(n: nat) -> Seq<char>
    decreases n,
{
    if n < 10 {
        seq![digit(n)]
    } else {
        dec_nat(n / 10).push(digit(n % 10))
    }
}

/// The decimal notation of a signed value: a minus sign before the digits of
/// the magnitude when the value is negative.
pub open spec fn dec_int(v: int) -> Seq<char> {
    if v < 0 {
        seq!['-'] + dec_nat((-v) as nat)
    } else {
        dec_nat(v as nat)
    }
}

/// The decimal notation of `n` left-filled with zeros up to `w` characters.
pub open spec fn zero_pad(n: nat, w: nat) -> Seq<char> {
    if dec_nat(n).len() >= w {
        dec_nat(n)
    } else {
        zeros((w - dec_nat(n).len()) as nat) + dec_nat(n)
    }
}

/// Appends `n` copies of `c`.
pub fn push_repeat(out: &mut Vec<char>, c: char, n: usize)
    ensures
        final(out)@ == old(out)@ + Seq::new(n as nat, |i: int| c),
{
    let mut k: usize = 0;
    while k < n
        invariant
            k <= n,
            out@ == old(out)@ + Seq::new(k as nat, |i: int| c),
        decreases n - k,
    {
        out.push(c);
        k += 1;
        proof {
            assert(out@ =~= old(out)@ + Seq::new(k as nat, |i: int| c));
        }
    }
}

/// Appends every character of `v`.
pub fn push_all(out: &mut Vec<char>, v: &Vec<char>)
    ensures
        final(out)@ == old(out)@ + v@,
{
    let mut k: usize = 0;
    while k < v.len()
        invariant
            k <= v.len(),
            out@ == old(out)@ + v@.take(k as int),
        decreases v.len() - k,
    {
        out.push(v[k]);
        k += 1;
        proof {
            assert(out@ =~= old(out)@ + v@.take(k as int));
        }
    }
    proof {
        assert(out@ =~= old(out)@ + v@);
    }
}

/// Appends every character of the string slice.
pub fn push_str_chars(out: &mut Vec<char>, s: &str)
    ensures
        final(out)@ == old(out)@ + s@,
{
    let n = s.unicode_len();
    let mut k: usize = 0;
    while k < n
        invariant
            n == s@.len(),
            k <= n,
            out@ == old(out)@ + s@.take(k as int),
        decreases n - k,
    {
        out.push(s.get_char(k));
        k += 1;
        proof {
            assert(out@ =~= old(out)@ + s@.take(k as int));
        }
    }
    proof {
        assert(out@ =~= old(out)@ + s@);
    }
}

/// `content` padded with spaces on the left up to width `w`.
pub fn pad_left_vec(content: Vec<char>, w: usize) -> (r: Vec<char>)
    ensures
        r@ == pad_left(content@, w as nat),
{
    if content.len() >= w {
        content
    } else {
        let mut out: Vec<char> = Vec::new();
        push_repeat(&mut out, ' ', w - content.len());
        push_all(&mut out, &content);
        out
    }
}

/// `content` padded with spaces on the right up to width `w`.
pub fn pad_right_vec(content: Vec<char>, w: usize) -> (r: Vec<char>)
    ensures
        r@ == pad_right(content@, w as nat),
{
    if content.len() >= w {
        content
    } else {
        let mut out: Vec<char> = content;
        let missing = w - out.len();
        push_repeat(&mut out, ' ', missing);
        out
    }
}

/// `content` centered in width `w`.
pub fn center_vec(content: Vec<char>, w: usize) -> (r: Vec<char>)
    ensures
        r@ == center(content@, w as nat),
{
    if content.len() >= w {
        content
    } else {
        let pad = w - content.len();
        let left = pad / 2;
        let right = pad - left;
        let mut out: Vec<char> = Vec::new();
        push_repeat(&mut out, ' ', left);
        push_all(&mut out, &content);
        push_repeat(&mut out, ' ', right);
        out
    }
}

/// `content` cut down to at most `w` characters, ending in the continuation
/// marker when it overflowed.
pub fn clip_vec(content: Vec<char>, w: usize) -> (r: Vec<char>)
    requires
        w >= 1,
    ensures
        r@ == clip(content@, w as nat),
{
    if content.len() <= w {
        content
    } else {
        let mut out: Vec<char> = Vec::new();
        let keep = w - 1;
        let mut k: usize = 0;
        while k < keep
            invariant
                k <= keep,
                keep < content.len(),
                out@ == content@.take(k as int),
            decreases keep - k,
        {
            out.push(content[k]);
            k += 1;
            proof {
                assert(out@ =~= content@.take(k as int));
            }
        }
        out.push('<');
        proof {
            assert(out@ =~= clip(content@, w as nat));
        }
        out
    }
}

/// The character for the decimal digit `x`.
pub fn digit_char(x: u64) -> (r: char)
    requires
        x < 10,
    ensures
        r == digit(x as nat),
{
    if x == 0 {
        '0'
    } else if x == 1 {
        '1'
    } else if x == 2 {
        '2'
    } else if x == 3 {
        '3'
    } else if x == 4 {
        '4'
    } else if x == 5 {
        '5'
    } else if x == 6 {
        '6'
    } else if x == 7 {
        '7'
    } else if x == 8 {
        '8'
    } else {
        '9'
    }
}

/// The decimal digits of `x`.
pub fn u64_digits(x: u64) -> (r: Vec<char>)
    ensures
        r@ == dec_nat(x as nat),
    decreases x,
{
    if x < 10 {
        let mut out: Vec<char> = Vec::new();
        out.push(digit_char(x));
        proof {
            assert(out@ =~= dec_nat(x as nat));
        }
        out
    } else {
        let mut out = u64_digits(x / 10);
        out.push(digit_char(x % 10));
        out
    }
}

/// The decimal digits of `x`, with a sign for negative values.
pub fn i64_digits(x: i64) -> (r: Vec<char>)
    ensures
        r@ == dec_int(x as int),
{
    if x >= 0 {
        u64_digits(x as u64)
    } else {
        let wide: i128 = x as i128;
        let magnitude: u64 = (-wide) as u64;
        let mut out: Vec<char> = Vec::new();
        out.push('-');
        let digits = u64_digits(magnitude);
        push_all(&mut out, &digits);
        proof {
            assert(out@ =~= dec_int(x as int));
        }
        out
    }
}

/// The decimal digits of `x` left-filled with zeros up to `w` characters.
pub fn zero_padded(x: u64, w: usize) -> (r: Vec<char>)
    ensures
        r@ == zero_pad(x as nat, w as nat),
{
    let digits = u64_digits(x);
    if digits.len() >= w {
        digits
    } else {
        let mut out: Vec<char> = Vec::new();
        push_repeat(&mut out, '0', w - digits.len());
        push_all(&mut out, &digits);
        out
    }
}

/// Relies on `String: FromIterator<char>`: collecting characters yields the
/// string of exactly those characters in order.
#[verifier::external_body]
pub fn chars_to_string(v: &Vec<char>) -> (r: String)
    ensures
        r@ == v@,
{
    v.iter().cloned().collect()
}

/// A whitespace character in the sense of the Unicode `White_Space`
/// property, the set that trimming removes at either end of a string.
pub open spec fn is_space(c: char) -> bool {
    c == ' ' || c == '\t' || c == '\n' || c == '\r' || c == '\u{000B}' || c == '\u{000C}' || c
        == '\u{0085}' || c == '\u{00A0}' || c == '\u{1680}' || c == '\u{2000}' || c == '\u{2001}'
        || c == '\u{2002}' || c == '\u{2003}' || c == '\u{2004}' || c == '\u{2005}' || c
        == '\u{2006}' || c == '\u{2007}' || c == '\u{2008}' || c == '\u{2009}' || c == '\u{200A}'
        || c == '\u{2028}' || c == '\u{2029}' || c == '\u{202F}' || c == '\u{205F}' || c
        == '\u{3000}'
}

/// `s` without its leading whitespace characters.
pub open spec fn trim_front(s: Seq<char>) -> Seq<char>
    decreases s.len(),
{
    if s.len() > 0 && is_space(s[0]) {
        trim_front(s.drop_first())
    } else {
        s
    }
}

/// `s` without its trailing whitespace characters.
pub open spec fn trim_back(s: Seq<char>) -> Seq<char>
    decreases s.len(),
{
    if s.len() > 0 && is_space(s[s.len() - 1]) {
        trim_back(s.drop_last())
    } else {
        s
    }
}

/// `s` without leading and trailing whitespace.
pub open spec fn trim_spec(s: Seq<char>) -> Seq<char> {
    trim_back(trim_front(s))
}

/// Relies on `str::trim`: removes the characters with the Unicode
/// `White_Space` property from both ends of the string and returns the rest.
#[verifier::external_body]
pub fn trim(s: &str) -> (r: &str)
    ensures
        r@ == trim_spec(s@),
{
    s.trim()
}

} // verus!
