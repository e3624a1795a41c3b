//! Character-level text helpers: taking a string apart into its
//! characters, building a string back from characters, and rendering a
//! number in decimal.

use vstd::prelude::*;
use vstd::string::StrSliceExecFns;

verus! {

/// The character for one decimal digit.
pub open spec fn spec_digit_char(d: nat) -> char {
    if d == 0 {
        '0'
    } else if d == 1 {
        '1'
    } else if d == 2 {
        '2'
    } else if d == 3 {
        '3'
    } else if d == 4 {
        '4'
    } else if d == 5 {
        '5'
    } else if d == 6 {
        '6'
    } else if d == 7 {
        '7'
    } else if d == 8 {
        '8'
    } else {
        '9'
    }
}

/// The decimal rendering of a number: most significant digit first, no
/// leading zero except for the number zero itself.
pub open spec fn dec_digits(n: nat) -> Seq<char>
    decreases n,
{
    if n < 10 {
        seq![spec_digit_char(n)]
    } else {
        dec_digits(n / 10) + seq![spec_digit_char(n % 10)]
    }
}

fn digit_char(d: u32) -> (r: char)
    requires
        d < 10,
    ensures
        r == spec_digit_char(d as nat),
{
    if d == 0 {
        '0'
    } else if d == 1 {
        '1'
    } else if d == 2 {
        '2'
    } else if d == 3 {
        '3'
    } else if d == 4 {
        '4'
    } else if d == 5 {
        '5'
    } else if d == 6 {
        '6'
    } else if d == 7 {
        '7'
    } else if d == 8 {
        '8'
    } else {
        '9'
    }
}

/// The decimal digits of `n`, most significant first.
pub fn decimal_chars(n: u32) -> (r: Vec<char>)
    ensures
        r@ == dec_digits(n as nat),
{
    let mut r: Vec<char> = Vec::new();
    if n == 0 {
        r.push('0');
        assert(r@ =~= dec_digits(0));
        return r;
    }
    let mut m: u32 = n;
    while m > 0
        invariant
            dec_digits(n as nat) == if m > 0 {
                dec_digits(m as nat) + r@
            } else {
                r@
            },
        decreases m,
    {
        let d: u32 = m % 10;
        let ghost old_r = r@;
        r.insert(0, digit_char(d));
        assert(r@ =~= seq![spec_digit_char(d as nat)] + old_r);
        if m >= 10 {
            assert(dec_digits(m as nat) == dec_digits((m / 10) as nat) + seq![
                spec_digit_char((m % 10) as nat),
            ]);
            assert(dec_digits((m / 10) as nat) + (seq![spec_digit_char(d as nat)] + old_r)
                =~= (dec_digits((m / 10) as nat) + seq![spec_digit_char(d as nat)]) + old_r);
        } else {
            assert(dec_digits(m as nat) =~= seq![spec_digit_char(d as nat)]);
            assert(seq![spec_digit_char(d as nat)] + old_r =~= dec_digits(m as nat) + old_r);
        }
        m = m / 10;
    }
    r
}

/// The characters of a string, in order.
pub fn str_chars(s: &str) -> (r: Vec<char>)
    ensures
        r@ == s@,
{
    let len: usize = s.unicode_len();
    let mut r: Vec<char> = Vec::new();
    let mut i: usize = 0;
    while i < len
        invariant
            i <= len,
            len == s@.len(),
            r@ == s@.subrange(0, i as int),
        decreases len - i,
    {
        r.push(s.get_char(i));
        assert(r@ =~= s@.subrange(0, i + 1 as int));
        i = i + 1;
    }
    assert(r@ =~= s@);
    r
}

/// Appends every character of `xs` to `out`, in order.
pub fn extend_chars(out: &mut Vec<char>, xs: &Vec<char>)
    ensures
        final(out)@ == old(out)@ + xs@,
{
    let mut i: usize = 0;
    while i < xs.len()
        invariant
            i <= xs@.len(),
            out@ == old(out)@ + xs@.subrange(0, i as int),
        decreases xs@.len() - i,
    {
        out.push(xs[i]);
        assert(out@ =~= old(out)@ + xs@.subrange(0, i + 1 as int));
        i = i + 1;
    }
    assert(out@ =~= old(out)@ + xs@);
}

/// Relies on `String`'s `FromIterator<char>` implementation: collecting
/// the characters of `v` yields the string whose characters are exactly
/// `v`, in order.
#[verifier::external_body]
pub fn string_from_chars(v: &Vec<char>) -> (r: String)
    ensures
        r@ == v@,
{
    v.iter().collect()
}

} // verus!
