//! Lower-case hexadecimal text of identifiers.
use vstd::prelude::*;

verus! {

/// The ASCII lower-case hexadecimal digit of `d`.
pub open spec fn hex_digit(d: u32) -> u8 {
    if d < 10 {
        (48 + d) as u8
    } else {
        (87 + d) as u8
    }
}

/// The lower-case hexadecimal digits of `v`, most significant first, with no
/// leading zero (zero is the single digit `0`).
pub open spec fn hex_of(v: u32) -> Seq<u8>
    decreases v,
{
    if v < 16 {
        seq![hex_digit(v)]
    } else {
        hex_of(v / 16).push(hex_digit(v % 16))
    }
}

fn digit(d: u32) -> (r: u8)
    requires
        d < 16,
    ensures
        r == hex_digit(d),
{
    if d < 10 {
        (48 + d) as u8
    } else {
        (87 + d) as u8
    }
}

/// The ASCII text of `value` in lower-case hexadecimal.
pub fn hex_digits(value: u32) -> (r: Vec<u8>)
    ensures
        r@ == hex_of(value),
    decreases value,
{
    if value < 16 {
        let mut r: Vec<u8> = Vec::new();
        r.push(digit(value));
        assert(r@ =~= seq![hex_digit(value)]);
        r
    } else {
        let mut r = hex_digits(value / 16);
        r.push(digit(value % 16));
        r
    }
}

} // verus!
