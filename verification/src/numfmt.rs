//! Decimal rendering of indices, used to derive positional cache keys.

use vstd::prelude::*;
use vstd::string::StringExecFns;

verus! {

/// The character for one decimal digit.
pub open spec fn digit_char(d: nat) -> char {
    if d == 0 {
        '0'
    } else if d == 1 {
        '1'
    } else if d == 2 {
        '2'
    } else if d == 3 {
        '3'
    } else if d == 4 {
        '4'
    } else if d == 5 {
        '5'
    } else if d == 6 {
        '6'
    } else if d == 7 {
        '7'
    } else if d == 8 {
        '8'
    } else {
        '9'
    }
}

/// The usual decimal rendering of `n`, most significant digit first and
/// without leading zeroes (`0` itself renders as `"0"`).
pub open spec fn dec_str_of(n: nat) -> Seq<char>
    decreases n,
{
    if n < 10 {
        seq![digit_char(n)]
    } else {
        dec_str_of(n / 10).push(digit_char(n % 10))
    }
}

/// A rendering is one character for a small number, longer otherwise.
proof fn lemma_dec_str_len(n: nat)
    ensures
        dec_str_of(n).len() >= 1,
        n >= 10 ==> dec_str_of(n).len() >= 2,
    decreases n,
{
    if n >= 10 {
        lemma_dec_str_len(n / 10);
    }
}

/// Distinct numbers render as distinct decimal strings.
pub proof fn lemma_dec_str_injective(m: nat, n: nat)
    requires
        m != n,
    ensures
        dec_str_of(m) != dec_str_of(n),
    decreases m + n,
{
    if m < 10 && n < 10 {
        assert(dec_str_of(m)[0] != dec_str_of(n)[0]);
    } else if m < 10 {
        lemma_dec_str_len(n);
    } else if n < 10 {
        lemma_dec_str_len(m);
    } else {
        assert(m == (m / 10) * 10 + m % 10) by (nonlinear_arith);
        assert(n == (n / 10) * 10 + n % 10) by (nonlinear_arith);
        let a = dec_str_of(m / 10);
        let b = dec_str_of(n / 10);
        if m % 10 != n % 10 {
            if dec_str_of(m) == dec_str_of(n) {
                assert(dec_str_of(m).last() == digit_char(m % 10));
                assert(dec_str_of(n).last() == digit_char(n % 10));
                assert(false);
            }
        } else {
            lemma_dec_str_injective(m / 10, n / 10);
            if dec_str_of(m) == dec_str_of(n) {
                assert(dec_str_of(m) == a.push(digit_char(m % 10)));
                assert(dec_str_of(n) == b.push(digit_char(n % 10)));
                assert(a.push(digit_char(m % 10)).len() == a.len() + 1);
                assert(b.push(digit_char(n % 10)).len() == b.len() + 1);
                assert(a.len() == b.len());
                assert forall|i: int| 0 <= i < a.len() implies a[i] == b[i] by {
                    assert(a.push(digit_char(m % 10))[i] == a[i]);
                    assert(b.push(digit_char(n % 10))[i] == b[i]);
                }
                assert(a =~= b);
                assert(false);
            }
        }
    }
}

/// One decimal digit as a string slice.
fn digit_str(d: usize) -> (s: &'static str)
    requires
        d < 10,
    ensures
        s@ == seq![digit_char(d as nat)],
{
    let s: &'static str = if d == 0 {
        "0"
    } else if d == 1 {
        "1"
    } else if d == 2 {
        "2"
    } else if d == 3 {
        "3"
    } else if d == 4 {
        "4"
    } else if d == 5 {
        "5"
    } else if d == 6 {
        "6"
    } else if d == 7 {
        "7"
    } else if d == 8 {
        "8"
    } else {
        "9"
    };
    proof {
        reveal_strlit("0");
        reveal_strlit("1");
        reveal_strlit("2");
        reveal_strlit("3");
        reveal_strlit("4");
        reveal_strlit("5");
        reveal_strlit("6");
        reveal_strlit("7");
        reveal_strlit("8");
        reveal_strlit("9");
        assert(s@ =~= seq![digit_char(d as nat)]);
    }
    s
}

/// Renders `n` in decimal.
pub fn usize_to_string(n: usize) -> (s: String)
    ensures
        s@ == dec_str_of(n as nat),
    decreases n,
{
    if n < 10 {
        let s = digit_str(n).to_owned();
        s
    } else {
        let mut s = usize_to_string(n / 10);
        s.append(digit_str(n % 10));
        proof {
            assert(s@ =~= dec_str_of(n as nat));
        }
        s
    }
}

} // verus!
