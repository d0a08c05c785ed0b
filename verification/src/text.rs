//! Decimal numerals and column padding for the disassembler and the tracer.

use vstd::prelude::*;
use vstd::string::StrSliceExecFns;
use vstd::string::StringExecFns;

verus! {

/// The character of the decimal digit `d`.
pub open spec fn digit_char(d: nat) -> char {
    if d == 0 {
        '0'
    } else if d == 1 {
        '1'
    } else if d == 2 {
        '2'
    } else if d == 3 {
        '3'
    } else if d == 4 {
        '4'
    } else if d == 5 {
        '5'
    } else if d == 6 {
        '6'
    } else if d == 7 {
        '7'
    } else if d == 8 {
        '8'
    } else {
        '9'
    }
}

/// The decimal numeral of `n`: most significant digit first, no sign, no
/// leading zeros.
pub open spec fn dec_rep(n: nat) -> Seq<char>
    decreases n,
{
    if n < 10 {
        seq![digit_char(n)]
    } else {
        dec_rep(n / 10).push(digit_char(n % 10))
    }
}

/// `s` preceded by as many `fill` characters as bring it to `width`;
/// `s` itself when it is already that wide.
pub open spec fn pad_left(s: Seq<char>, fill: char, width: nat) -> Seq<char> {
    if s.len() >= width {
        s
    } else {
        Seq::new((width - s.len()) as nat, |i: int| fill) + s
    }
}

/// `s` followed by as many `fill` characters as bring it to `width`;
/// `s` itself when it is already that wide.
pub open spec fn pad_right(s: Seq<char>, fill: char, width: nat) -> Seq<char> {
    if s.len() >= width {
        s
    } else {
        s + Seq::new((width - s.len()) as nat, |i: int| fill)
    }
}

/// The decimal digit `d` as a one-character string slice.
fn digit_str(d: usize) -> (r: &'static str)
    requires
        d < 10,
    ensures
        r@ == seq![digit_char(d as nat)],
{
    let r: &'static str = if d == 0 {
        "0"
    } else if d == 1 {
        "1"
    } else if d == 2 {
        "2"
    } else if d == 3 {
        "3"
    } else if d == 4 {
        "4"
    } else if d == 5 {
        "5"
    } else if d == 6 {
        "6"
    } else if d == 7 {
        "7"
    } else if d == 8 {
        "8"
    } else {
        "9"
    };
    proof {
        reveal_strlit("0");
        reveal_strlit("1");
        reveal_strlit("2");
        reveal_strlit("3");
        reveal_strlit("4");
        reveal_strlit("5");
        reveal_strlit("6");
        reveal_strlit("7");
        reveal_strlit("8");
        reveal_strlit("9");
        assert(r@ =~= seq![digit_char(d as nat)]);
    }
    r
}

/// The decimal numeral of `n` as a string.
pub fn decimal_string(n: usize) -> (r: String)
    ensures
        r@ == dec_rep(n as nat),
    decreases n,
{
    if n < 10 {
        String::from_str(digit_str(n))
    } else {
        let mut r = decimal_string(n / 10);
        r.append(digit_str(n % 10));
        proof {
            assert(r@ =~= dec_rep(n as nat));
        }
        r
    }
}

/// `count` copies of the single character of `fill`.
fn repeated(fill: &str, count: usize) -> (r: String)
    requires
        fill@.len() == 1,
    ensures
        r@ == Seq::new(count as nat, |i: int| fill@[0]),
{
    let mut r = String::new();
    let mut k: usize = 0;
    while k < count
        invariant
            k <= count,
            fill@.len() == 1,
            r@ == Seq::new(k as nat, |i: int| fill@[0]),
        decreases count - k,
    {
        r.append(fill);
        k = k + 1;
        proof {
            assert(r@ =~= Seq::new(k as nat, |i: int| fill@[0]));
        }
    }
    r
}

/// `s` left-padded with the single character of `fill` to `width` columns.
pub fn pad_left_string(s: String, fill: &str, width: usize) -> (r: String)
    requires
        fill@.len() == 1,
    ensures
        r@ == pad_left(s@, fill@[0], width as nat),
{
    let n = s.as_str().unicode_len();
    if n >= width {
        s
    } else {
        let mut r = repeated(fill, width - n);
        r.append(s.as_str());
        r
    }
}

/// `s` right-padded with the single character of `fill` to `width` columns.
pub fn pad_right_string(s: String, fill: &str, width: usize) -> (r: String)
    requires
        fill@.len() == 1,
    ensures
        r@ == pad_right(s@, fill@[0], width as nat),
{
    let n = s.as_str().unicode_len();
    if n >= width {
        s
    } else {
        let mut r = s;
        let tail = repeated(fill, width - n);
        r.append(tail.as_str());
        r
    }
}

} // verus!
