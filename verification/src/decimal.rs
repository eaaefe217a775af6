//! Decimal rendering of unsigned integers.
//!
//! The task identifier feeds the decimal form of the piece length into its
//! hash pre-image, and several error messages interpolate counts, so the
//! rendering is verified exactly: the result is the usual base-ten form,
//! most significant digit first, without leading zeros, and distinct numbers
//! always render to distinct strings.

use vstd::prelude::*;

verus! {

/// The character for one decimal digit value.
pub open spec fn dec_digit(d: nat) -> char
    recommends
        d < 10,
{
    if d == 0 {
        '0'
    } else if d == 1 {
        '1'
    } else if d == 2 {
        '2'
    } else if d == 3 {
        '3'
    } else if d == 4 {
        '4'
    } else if d == 5 {
        '5'
    } else if d == 6 {
        '6'
    } else if d == 7 {
        '7'
    } else if d == 8 {
        '8'
    } else {
        '9'
    }
}

/// The decimal rendering of `n`: most significant digit first, no leading
/// zeros, a single `'0'` for zero.
pub open spec fn dec_of(n: nat) -> Seq<char>
    decreases n,
{
    if n < 10 {
        seq![dec_digit(n)]
    } else {
        dec_of(n / 10) + seq![dec_digit(n % 10)]
    }
}

/// A one-character string for one decimal digit value.
fn digit_str(d: u64) -> (r: &'static str)
    requires
        d < 10,
    ensures
        r@ == seq![dec_digit(d as nat)],
{
    proof {
        reveal_strlit("0");
        reveal_strlit("1");
        reveal_strlit("2");
        reveal_strlit("3");
        reveal_strlit("4");
        reveal_strlit("5");
        reveal_strlit("6");
        reveal_strlit("7");
        reveal_strlit("8");
        reveal_strlit("9");
    }
    if d == 0 {
        proof { assert("0"@ =~= seq![dec_digit(0)]); }
        "0"
    } else if d == 1 {
        proof { assert("1"@ =~= seq![dec_digit(1)]); }
        "1"
    } else if d == 2 {
        proof { assert("2"@ =~= seq![dec_digit(2)]); }
        "2"
    } else if d == 3 {
        proof { assert("3"@ =~= seq![dec_digit(3)]); }
        "3"
    } else if d == 4 {
        proof { assert("4"@ =~= seq![dec_digit(4)]); }
        "4"
    } else if d == 5 {
        proof { assert("5"@ =~= seq![dec_digit(5)]); }
        "5"
    } else if d == 6 {
        proof { assert("6"@ =~= seq![dec_digit(6)]); }
        "6"
    } else if d == 7 {
        proof { assert("7"@ =~= seq![dec_digit(7)]); }
        "7"
    } else if d == 8 {
        proof { assert("8"@ =~= seq![dec_digit(8)]); }
        "8"
    } else {
        proof { assert("9"@ =~= seq![dec_digit(9)]); }
        "9"
    }
}

/// Renders `n` in decimal.
pub fn u64_to_dec(n: u64) -> (r: String)
    ensures
        r@ == dec_of(n as nat),
    decreases n,
{
    if n < 10 {
        String::from_str(digit_str(n))
    } else {
        let prefix = u64_to_dec(n / 10);
        prefix.concat(digit_str(n % 10))
    }
}

/// Every decimal rendering has at least one character.
pub proof fn lemma_dec_of_len_pos(n: nat)
    ensures
        dec_of(n).len() >= 1,
    decreases n,
{
    if n >= 10 {
        lemma_dec_of_len_pos(n / 10);
    }
}

/// Distinct numbers render to distinct decimal strings.
pub proof fn lemma_dec_of_injective(a: nat, b: nat)
    ensures
        dec_of(a) == dec_of(b) ==> a == b,
    decreases a + b,
{
    if dec_of(a) == dec_of(b) {
        if a < 10 && b < 10 {
            assert(dec_of(a)[0] == dec_of(b)[0]);
        } else if a < 10 && b >= 10 {
            lemma_dec_of_len_pos(b / 10);
            assert(dec_of(b).len() >= 2);
        } else if a >= 10 && b < 10 {
            lemma_dec_of_len_pos(a / 10);
            assert(dec_of(a).len() >= 2);
        } else {
            assert(dec_of(a).last() == dec_of(b).last());
            assert(dec_digit((a % 10) as nat) == dec_digit((b % 10) as nat));
            assert(a % 10 == b % 10);
            assert(dec_of(a).drop_last() =~= dec_of(a / 10));
            assert(dec_of(b).drop_last() =~= dec_of(b / 10));
            lemma_dec_of_injective(a / 10, b / 10);
            assert(a / 10 == b / 10);
            assert(a == 10 * (a / 10) + a % 10);
            assert(b == 10 * (b / 10) + b % 10);
        }
    }
}

} // verus!
