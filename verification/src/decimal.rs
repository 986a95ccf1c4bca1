//! Rendering unsigned integers as decimal strings.

use vstd::prelude::*;
use crate::strutil::chars_to_string;

verus! {

/// The character for one decimal digit.
pub open spec fn dec_digit_char(d: nat) -> char {
    if d == 0 {
        '0'
    } else if d == 1 {
        '1'
    } else if d == 2 {
        '2'
    } else if d == 3 {
        '3'
    } else if d == 4 {
        '4'
    } else if d == 5 {
        '5'
    } else if d == 6 {
        '6'
    } else if d == 7 {
        '7'
    } else if d == 8 {
        '8'
    } else {
        '9'
    }
}

/// The decimal representation of a natural number, most significant digit
/// first, with no leading zeros (`0` itself is the single character `0`).
pub open spec fn dec_rep(n: nat) -> Seq<char>
    decreases n,
{
    if n < 10 {
        seq![dec_digit_char(n)]
    } else {
        dec_rep(n / 10).push(dec_digit_char(n % 10))
    }
}

/// The digit character for a value below ten.
fn digit_char(d: u64) -> (c: char)
    requires
        d < 10,
    ensures
        c == dec_digit_char(d as nat),
{
    if d == 0 {
        '0'
    } else if d == 1 {
        '1'
    } else if d == 2 {
        '2'
    } else if d == 3 {
        '3'
    } else if d == 4 {
        '4'
    } else if d == 5 {
        '5'
    } else if d == 6 {
        '6'
    } else if d == 7 {
        '7'
    } else if d == 8 {
        '8'
    } else {
        '9'
    }
}

/// Renders a number as its decimal representation.
pub fn u64_to_string(n: u64) -> (s: String)
    ensures
        s@ == dec_rep(n as nat),
{
    if n == 0 {
        let zero: Vec<char> = vec!['0'];
        let s = chars_to_string(&zero);
        assert(s@ =~= dec_rep(0));
        return s;
    }
    let mut rev: Vec<char> = Vec::new();
    let mut m: u64 = n;
    proof {
        assert(dec_rep(n as nat) =~= dec_rep(m as nat) + rev@.reverse());
    }
    while m > 0
        invariant
            m > 0 ==> dec_rep(n as nat) == dec_rep(m as nat) + rev@.reverse(),
            m == 0 ==> dec_rep(n as nat) == rev@.reverse(),
        decreases m,
    {
        let ghost old_m = m as nat;
        let ghost old_rev = rev@;
        let d = m % 10;
        rev.push(digit_char(d));
        m = m / 10;
        proof {
            assert(rev@ == old_rev.push(dec_digit_char(old_m % 10)));
            assert(rev@.reverse() =~= seq![dec_digit_char(old_m % 10)] + old_rev.reverse());
            if old_m < 10 {
                assert(old_m % 10 == old_m);
                assert(m == 0);
                assert(dec_rep(old_m) == seq![dec_digit_char(old_m)]);
                assert(dec_rep(n as nat) =~= rev@.reverse());
            } else {
                assert(m == old_m / 10);
                assert(1 <= m < old_m) by (nonlinear_arith)
                    requires
                        old_m >= 10,
                        m == old_m / 10,
                ;
                assert(dec_rep(old_m) == dec_rep(old_m / 10).push(dec_digit_char(old_m % 10)));
                assert(dec_rep(old_m) =~= dec_rep(m as nat) + seq![dec_digit_char(old_m % 10)]);
                assert(dec_rep(n as nat) =~= dec_rep(m as nat) + rev@.reverse());
            }
        }
    }
    let mut chars: Vec<char> = Vec::new();
    let mut i: usize = rev.len();
    while i > 0
        invariant
            i <= rev.len(),
            chars@ =~= rev@.subrange(i as int, rev@.len() as int).reverse(),
        decreases i,
    {
        i = i - 1;
        chars.push(rev[i]);
        assert(chars@ =~= rev@.subrange(i as int, rev@.len() as int).reverse());
    }
    assert(rev@.subrange(0, rev@.len() as int) =~= rev@);
    assert(chars@ == rev@.reverse());
    chars_to_string(&chars)
}

} // verus!
