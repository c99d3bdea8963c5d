use vstd::prelude::*;

verus! {

/// The byte of the digit `0`.
pub const ZERO: u8 = 48;

/// The ASCII decimal digits of `n`, most significant first, with no sign and
/// no leading zeros (zero itself is the single digit `0`).
pub open spec fn decimal(n: nat) -> Seq<u8>
    decreases n,
{
    if n < 10 {
        seq![(ZERO + n) as u8]
    } else {
        decimal(n / 10).push((ZERO + n % 10) as u8)
    }
}

/// Appends the decimal digits of `n` to `out`.
pub fn push_decimal(n: u128, out: &mut Vec<u8>)
    ensures
        final(out)@ == old(out)@ + decimal(n as nat),
    decreases n,
{
    if n >= 10 {
        push_decimal(n / 10, out);
    }
    let digit: u8 = (n % 10) as u8;
    out.push(ZERO + digit);
    proof {
        if n >= 10 {
            assert(decimal(n as nat) == decimal((n / 10) as nat).push((ZERO + n % 10) as u8));
        }
        assert(out@ =~= old(out)@ + decimal(n as nat));
    }
}

/// Every number has at least one digit, and numbers of ten or more have at
/// least two.
pub proof fn lemma_decimal_len(n: nat)
    ensures
        decimal(n).len() >= 1,
        n >= 10 ==> decimal(n).len() >= 2,
    decreases n,
{
    if n >= 10 {
        lemma_decimal_len(n / 10);
    }
}

/// Distinct numbers have distinct decimal digits.
pub proof fn lemma_decimal_injective(a: nat, b: nat)
    requires
        decimal(a) == decimal(b),
    ensures
        a == b,
    decreases a,
{
    lemma_decimal_len(a);
    lemma_decimal_len(b);
    if a >= 10 && b >= 10 {
        let da = decimal(a);
        assert(decimal(a / 10) == da.drop_last());
        assert(decimal(b / 10) == da.drop_last());
        lemma_decimal_injective(a / 10, b / 10);
        assert(da.last() == (ZERO + a % 10) as u8);
        assert(da.last() == (ZERO + b % 10) as u8);
    } else if a < 10 && b < 10 {
        assert(decimal(a)[0] == (ZERO + a) as u8);
        assert(decimal(b)[0] == (ZERO + b) as u8);
    }
}

} // verus!
