//! Decimal formatting of unsigned integers as verified string building blocks.

use vstd::prelude::*;

verus! {

/// Appends the given char to the end of this String.
pub assume_specification[ String::push ](s: &mut String, c: char)
    ensures
        final(s)@ == old(s)@.push(c),
;

/// The decimal digit characters, least significant last, of `n`.
pub open spec fn dec_str(n: nat) -> Seq<char>
    decreases n,
{
    if n < 10 {
        seq![digit_char(n)]
    } else {
        dec_str(n / 10).push(digit_char(n % 10))
    }
}

/// The character for a single decimal digit.
pub open spec fn digit_char(d: nat) -> char {
    (48 + d) as char
}

/// Renders `n` in decimal.
pub fn fmt_u64(n: u64) -> (r: String)
    ensures
        r@ == dec_str(n as nat),
    decreases n,
{
    if n < 10 {
        let mut s = String::new();
        s.push((48u8 + (n as u8)) as char);
        assert(s@ =~= dec_str(n as nat));
        s
    } else {
        let mut s = fmt_u64(n / 10);
        s.push((48u8 + ((n % 10) as u8)) as char);
        s
    }
}

} // verus!
