//! Decimal notation of unsigned integers.
use vstd::prelude::*;

verus! {

/// The character of one decimal digit.
pub open spec fn digit(d: nat) -> char {
    seq!['0', '1', '2', '3', '4', '5', '6', '7', '8', '9'][d as int]
}

/// The decimal notation of `n`, without leading zeros.
pub open spec fn decimal(n: nat) -> Seq<char>
    decreases n,
{
    if n < 10 {
        seq![digit(n)]
    } else {
        decimal(n / 10).push(digit(n % 10))
    }
}

proof fn lemma_digit_code(d: nat)
    requires
        d < 10,
    ensures
        digit(d) as u32 == 48 + d,
{
    assert(d == 0 || d == 1 || d == 2 || d == 3 || d == 4 || d == 5 || d == 6 || d == 7 || d == 8
        || d == 9);
}

/// Different numbers have different notations, each at least one digit long.
pub proof fn lemma_decimal_injective(n: nat, m: nat)
    ensures
        decimal(n).len() >= 1,
        decimal(n) == decimal(m) ==> n == m,
    decreases n + m,
{
    if n >= 10 {
        lemma_decimal_injective(n / 10, m);
    }
    if decimal(n) == decimal(m) {
        if n < 10 && m < 10 {
            assert(decimal(n)[0] == decimal(m)[0]);
            lemma_digit_code(n);
            lemma_digit_code(m);
        } else if n >= 10 && m >= 10 {
            lemma_decimal_injective(n / 10, m / 10);
            assert(decimal(n).drop_last() == decimal(n / 10));
            assert(decimal(m).drop_last() == decimal(m / 10));
            assert(decimal(n).last() == decimal(m).last());
            lemma_digit_code(n % 10);
            lemma_digit_code(m % 10);
            assert(n == 10 * (n / 10) + n % 10);
            assert(m == 10 * (m / 10) + m % 10);
        } else if n < 10 {
            lemma_decimal_injective(m / 10, n);
            assert(decimal(m).len() == decimal(m / 10).len() + 1);
        } else {
            assert(decimal(n).len() == decimal(n / 10).len() + 1);
        }
    }
}

fn digit_char(d: u64) -> (c: char)
    requires
        d < 10,
    ensures
        c == digit(d as nat),
{
    let digits = ['0', '1', '2', '3', '4', '5', '6', '7', '8', '9'];
    proof {
        assert(digits@ == seq!['0', '1', '2', '3', '4', '5', '6', '7', '8', '9']);
    }
    digits[d as usize]
}

/// Appends the decimal notation of `n` to `out`.
pub fn push_decimal(out: &mut String, n: u64)
    ensures
        final(out)@ == old(out)@ + decimal(n as nat),
    decreases n,
{
    if n >= 10 {
        push_decimal(out, n / 10);
    }
    out.push(digit_char(n % 10));
    proof {
        if n < 10 {
            assert(old(out)@.push(digit(n as nat)) == old(out)@ + seq![digit(n as nat)]);
        } else {
            assert((old(out)@ + decimal((n / 10) as nat)).push(digit((n % 10) as nat)) == old(out)@
                + decimal((n / 10) as nat).push(digit((n % 10) as nat)));
        }
    }
}

} // verus!
