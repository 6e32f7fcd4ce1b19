//! Decimal rendering of 64-bit numbers.
//!
//! The miner-facing template encodes every numeric field that may exceed
//! 2^53 as a decimal string, to survive JSON round trips. `dec_seq` states
//! what such a string holds; `u64_to_dec` produces it.

use vstd::prelude::*;

verus! {

/// The character of one decimal digit.
pub open spec fn dec_digit(d: nat) -> char {
    if d == 0 {
        '0'
    } else if d == 1 {
        '1'
    } else if d == 2 {
        '2'
    } else if d == 3 {
        '3'
    } else if d == 4 {
        '4'
    } else if d == 5 {
        '5'
    } else if d == 6 {
        '6'
    } else if d == 7 {
        '7'
    } else if d == 8 {
        '8'
    } else {
        '9'
    }
}

/// The decimal rendering of `n`: most significant digit first, no sign, no
/// leading zeros (a single `'0'` for zero).
pub open spec fn dec_seq(n: nat) -> Seq<char>
    decreases n,
{
    if n < 10 {
        seq![dec_digit(n)]
    } else {
        dec_seq(n / 10).push(dec_digit(n % 10))
    }
}

/// Relies on `u64`'s `ToString` (through its `Display`): the decimal digits
/// of the number, most significant first, without sign or leading zeros.
#[verifier::external_body]
pub fn u64_to_dec(n: u64) -> (s: String)
    ensures
        s@ == dec_seq(n as nat),
{
    n.to_string()
}

/// Distinct numbers render as distinct decimal strings.
pub proof fn lemma_dec_seq_injective(a: nat, b: nat)
    requires
        dec_seq(a) == dec_seq(b),
    ensures
        a == b,
    decreases a + b,
{
    let sa = dec_seq(a);
    let sb = dec_seq(b);
    if a < 10 && b < 10 {
        assert(sa[0] == dec_digit(a));
        assert(sb[0] == dec_digit(b));
    } else if a < 10 {
        assert(sa.len() == 1);
        lemma_dec_seq_len_ge_two(b);
    } else if b < 10 {
        assert(sb.len() == 1);
        lemma_dec_seq_len_ge_two(a);
    } else {
        assert(sa.last() == dec_digit(a % 10));
        assert(sb.last() == dec_digit(b % 10));
        assert(a % 10 == b % 10);
        assert(sa.drop_last() == dec_seq(a / 10));
        assert(sb.drop_last() == dec_seq(b / 10));
        lemma_dec_seq_injective(a / 10, b / 10);
        assert(a == (a / 10) * 10 + a % 10) by (nonlinear_arith);
        assert(b == (b / 10) * 10 + b % 10) by (nonlinear_arith);
    }
}

/// A number of ten or more renders with at least two digits.
proof fn lemma_dec_seq_len_ge_two(n: nat)
    requires
        n >= 10,
    ensures
        dec_seq(n).len() >= 2,
{
    lemma_dec_seq_len_ge_one(n / 10);
}

/// Every number renders with at least one digit.
proof fn lemma_dec_seq_len_ge_one(n: nat)
    ensures
        dec_seq(n).len() >= 1,
    decreases n,
{
    if n >= 10 {
        lemma_dec_seq_len_ge_one(n / 10);
    }
}

} // verus!
