//! Verified rendering of a `u64` as its decimal string. Guild identifiers go
//! on the wire as decimal strings, not numeric literals, because they exceed
//! safe-integer precision in some peer-side parsers.

use vstd::prelude::*;

verus! {

/// The character of one decimal digit.
pub open spec fn dec_digit(d: nat) -> char {
    if d == 0 {
        '0'
    } else if d == 1 {
        '1'
    } else if d == 2 {
        '2'
    } else if d == 3 {
        '3'
    } else if d == 4 {
        '4'
    } else if d == 5 {
        '5'
    } else if d == 6 {
        '6'
    } else if d == 7 {
        '7'
    } else if d == 8 {
        '8'
    } else {
        '9'
    }
}

/// The decimal rendering of a natural number: most significant digit first,
/// no leading zeroes (a single `'0'` for zero itself).
pub open spec fn dec_rep(n: nat) -> Seq<char>
    decreases n,
{
    if n < 10 {
        seq![dec_digit(n)]
    } else {
        dec_rep(n / 10).push(dec_digit(n % 10))
    }
}

/// The one-character string of one decimal digit.
fn digit_str(d: u64) -> (r: &'static str)
    requires
        d < 10,
    ensures
        r@ == seq![dec_digit(d as nat)],
{
    proof {
        reveal_strlit("0");
        reveal_strlit("1");
        reveal_strlit("2");
        reveal_strlit("3");
        reveal_strlit("4");
        reveal_strlit("5");
        reveal_strlit("6");
        reveal_strlit("7");
        reveal_strlit("8");
        reveal_strlit("9");
    }
    let r = if d == 0 {
        "0"
    } else if d == 1 {
        "1"
    } else if d == 2 {
        "2"
    } else if d == 3 {
        "3"
    } else if d == 4 {
        "4"
    } else if d == 5 {
        "5"
    } else if d == 6 {
        "6"
    } else if d == 7 {
        "7"
    } else if d == 8 {
        "8"
    } else {
        "9"
    };
    proof {
        assert(r@ =~= seq![dec_digit(d as nat)]);
    }
    r
}

/// The characters of a sequence of digit values.
spec fn digit_chars(ds: Seq<u64>) -> Seq<char> {
    ds.map_values(|d: u64| dec_digit(d as nat))
}

/// Renders `n` in decimal, exactly as [`dec_rep`] states.
pub fn u64_to_dec_string(n: u64) -> (r: String)
    ensures
        r@ == dec_rep(n as nat),
{
    let mut m: u64 = n;
    // low-order digits of `n`, least significant first
    let mut digits: Vec<u64> = Vec::new();
    while m >= 10
        invariant
            dec_rep(n as nat) == dec_rep(m as nat) + digit_chars(digits@).reverse(),
            forall|i: int| 0 <= i < digits@.len() ==> digits@[i] < 10,
        decreases m,
    {
        let d = m % 10;
        let ghost old_digits = digits@;
        digits.push(d);
        m = m / 10;
        proof {
            assert(digit_chars(old_digits.push(d)).reverse() =~= seq![
                dec_digit(d as nat),
            ] + digit_chars(old_digits).reverse());
            assert(dec_rep(n as nat) =~= dec_rep(m as nat) + digit_chars(digits@).reverse());
        }
    }
    let mut s: String = digit_str(m).to_owned();
    proof {
        assert(s@ =~= dec_rep(m as nat));
    }
    let ghost high = dec_rep(m as nat);
    let ghost rev = digit_chars(digits@).reverse();
    let mut i: usize = digits.len();
    while i > 0
        invariant
            i <= digits@.len(),
            forall|j: int| 0 <= j < digits@.len() ==> digits@[j] < 10,
            rev == digit_chars(digits@).reverse(),
            s@ == high + rev.take(digits@.len() - i),
        decreases i,
    {
        i = i - 1;
        s.append(digit_str(digits[i]));
        proof {
            assert(s@ =~= high + rev.take(digits@.len() - i));
        }
    }
    proof {
        assert(rev.take(digits@.len() as int) =~= rev);
        assert(s@ =~= dec_rep(n as nat));
    }
    s
}

} // verus!
