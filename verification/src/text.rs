//! Characters, numerals and padding: the pieces every line of output is made of.

use vstd::prelude::*;
use vstd::string::{StrSliceExecFns, StringExecFns};

verus! {

/// `String::push` appends one character to the end of the string and leaves
/// the characters before it as they were.
pub assume_specification[ String::push ](s: &mut String, c: char)
    ensures
        final(s)@ == old(s)@.push(c),
;

/// The characters that separate the words of an input line.
pub open spec fn is_blank(c: char) -> bool {
    c == ' ' || c == '\t' || c == '\n' || c == '\r' || c == '\x0b' || c == '\x0c'
}

/// Tells whether `c` separates words.
pub fn blank(c: char) -> (r: bool)
    ensures
        r == is_blank(c),
{
    c == ' ' || c == '\t' || c == '\n' || c == '\r' || c == '\x0b' || c == '\x0c'
}

/// The sixteen digits, in order; the letters are lower case.
pub open spec fn digits() -> Seq<char> {
    seq!['0', '1', '2', '3', '4', '5', '6', '7', '8', '9', 'a', 'b', 'c', 'd', 'e', 'f']
}

/// The numeral of `n` in `base`, most significant digit first and without
/// leading zeros; zero is written as the single digit `0`.
pub open spec fn numeral(n: nat, base: nat) -> Seq<char>
    recommends
        2 <= base <= 16,
    decreases n,
{
    if base < 2 || n < base {
        seq![digits()[n as int]]
    } else {
        proof {
            assert(n / base < n) by (nonlinear_arith)
                requires
                    2 <= base <= n,
            ;
        }
        numeral(n / base, base).push(digits()[(n % base) as int])
    }
}

/// The numeral of what stands before the last digit: nothing where `n` is
/// zero.
spec fn leading(n: nat, base: nat) -> Seq<char> {
    if n == 0 {
        Seq::empty()
    } else {
        numeral(n, base)
    }
}

/// A numeral is the numeral of what stands before its last digit, and that
/// digit.
proof fn lemma_last_digit(n: nat, base: nat)
    requires
        2 <= base,
    ensures
        numeral(n, base) == leading(n / base, base).push(digits()[(n % base) as int]),
{
    if n < base {
        assert(n / base == 0 && n % base == n) by (nonlinear_arith)
            requires
                n < base,
                2 <= base,
        ;
    } else {
        assert(n / base > 0) by (nonlinear_arith)
            requires
                n >= base,
                2 <= base,
        ;
    }
}

/// The digit for a value below sixteen.
fn digit(d: u8) -> (c: char)
    requires
        d < 16,
    ensures
        c == digits()[d as int],
{
    match d {
        0 => '0',
        1 => '1',
        2 => '2',
        3 => '3',
        4 => '4',
        5 => '5',
        6 => '6',
        7 => '7',
        8 => '8',
        9 => '9',
        10 => 'a',
        11 => 'b',
        12 => 'c',
        13 => 'd',
        14 => 'e',
        _ => 'f',
    }
}

/// Appends the numeral of `n` in `base` to `out`.
fn push_numeral(out: &mut String, n: u128, base: u8)
    requires
        2 <= base <= 16,
    ensures
        final(out)@ == old(out)@ + numeral(n as nat, base as nat),
{
    let wide: u128 = base as u128;
    let mut low_first: Vec<char> = Vec::new();
    let mut rest: u128 = n / wide;
    low_first.push(digit((n % wide) as u8));
    proof {
        lemma_last_digit(n as nat, base as nat);
    }
    while rest > 0
        invariant
            2 <= base <= 16,
            wide == base,
            numeral(n as nat, base as nat) == leading(rest as nat, base as nat)
                + low_first@.reverse(),
        decreases rest,
    {
        proof {
            lemma_last_digit(rest as nat, base as nat);
        }
        low_first.push(digit((rest % wide) as u8));
        rest = rest / wide;
    }
    let mut k: usize = low_first.len();
    let ghost before = out@;
    while k > 0
        invariant
            k <= low_first@.len(),
            out@ == before + low_first@.reverse().take(low_first@.len() - k),
        decreases k,
    {
        k = k - 1;
        out.push(low_first[k]);
    }
}

/// The decimal numeral of `n`.
pub fn decimal(n: u128) -> (r: String)
    ensures
        r@ == numeral(n as nat, 10),
{
    let mut out = String::new();
    push_numeral(&mut out, n, 10);
    out
}

/// The hexadecimal numeral of `n`, in lower case and without a prefix.
pub fn hexadecimal(n: u64) -> (r: String)
    ensures
        r@ == numeral(n as nat, 16),
{
    let mut out = String::new();
    push_numeral(&mut out, n as u128, 16);
    out
}

/// The characters of `s`, one by one.
pub fn chars_of(s: &str) -> (v: Vec<char>)
    ensures
        v@ == s@,
{
    let mut v: Vec<char> = Vec::new();
    for c in it: s.chars()
        invariant
            v@ == it.seq().take(it.index() as int),
            it.seq() == s@,
    {
        v.push(c);
    }
    v
}

/// The string made of the characters of `chars` from `from` up to `to`.
pub(crate) fn string_of(chars: &Vec<char>, from: usize, to: usize) -> (r: String)
    requires
        from <= to <= chars@.len(),
    ensures
        r@ == chars@.subrange(from as int, to as int),
{
    let mut out = String::new();
    let mut i: usize = from;
    while i < to
        invariant
            from <= i <= to <= chars@.len(),
            out@ == chars@.subrange(from as int, i as int),
        decreases to - i,
    {
        out.push(chars[i]);
        i = i + 1;
    }
    out
}

/// Tells whether two strings hold the same characters.
pub fn same_text(a: &str, b: &str) -> (r: bool)
    ensures
        r == (a@ == b@),
{
    let left = chars_of(a);
    let right = chars_of(b);
    if left.len() != right.len() {
        return false;
    }
    let mut i: usize = 0;
    while i < left.len()
        invariant
            i <= left@.len(),
            left@.len() == right@.len(),
            left@ == a@,
            right@ == b@,
            left@.take(i as int) == right@.take(i as int),
        decreases left@.len() - i,
    {
        if left[i] != right[i] {
            return false;
        }
        i = i + 1;
    }
    assert(left@ =~= left@.take(i as int));
    assert(right@ =~= right@.take(i as int));
    true
}

/// `s`, followed by as many `fill` as it takes to reach `width` characters;
/// `s` itself where it is that long already.
pub open spec fn padded(s: Seq<char>, width: nat, fill: char) -> Seq<char> {
    if s.len() >= width {
        s
    } else {
        s + Seq::new((width - s.len()) as nat, |i: int| fill)
    }
}

/// Appends `s` to `out`, filled up to `width` characters with `fill`.
pub fn push_padded(out: &mut String, s: &str, width: usize, fill: char)
    ensures
        final(out)@ == old(out)@ + padded(s@, width as nat, fill),
{
    let ghost before = out@;
    out.append(s);
    let mut i: usize = s.unicode_len();
    while i < width
        invariant
            s@.len() <= i,
            i <= width || i == s@.len(),
            out@ == before + s@ + Seq::new((i - s@.len()) as nat, |k: int| fill),
        decreases width - i,
    {
        out.push(fill);
        i = i + 1;
    }
}

} // verus!
