use crate::banner::NEWLINE;
use crate::decimal::{decimal, push_decimal};
use vstd::prelude::*;

verus! {

/// The template solution: it echoes the count `n` that opens its input, on
/// a line of its own.
pub fn solve(n: usize, out: &mut Vec<u8>)
    ensures
        final(out)@ == old(out)@ + decimal(n as nat) + seq![NEWLINE],
{
    push_decimal(n as u128, out);
    out.push(NEWLINE);
    assert(out@ =~= old(out)@ + decimal(n as nat) + seq![NEWLINE]);
}

} // verus!
