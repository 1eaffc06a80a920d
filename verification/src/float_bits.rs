//! Numbers in the 64-bit format of IEEE 754, known by their bits.
use vstd::prelude::*;

verus! {

/// Whether bits in the 64-bit format of IEEE 754 stand for zero, with either sign.
pub open spec fn stands_for_zero(bits: u64) -> bool {
    bits == 0 || bits == 0x8000_0000_0000_0000
}

/// Whether bits in the 64-bit format of IEEE 754 stand for no number.
pub open spec fn stands_for_nan(bits: u64) -> bool {
    bits % 0x8000_0000_0000_0000 > 0x7ff0_0000_0000_0000
}

/// Whether bits in the 64-bit format of IEEE 754 stand for the same number: zero is
/// the same with either sign, and what is no number is not the same as anything.
pub open spec fn stand_for_same(a: u64, b: u64) -> bool {
    &&& !stands_for_nan(a)
    &&& !stands_for_nan(b)
    &&& a == b || stands_for_zero(a) && stands_for_zero(b)
}

/// Whether bits in the 64-bit format of IEEE 754 stand for the same number.
pub fn are_same_number(a: u64, b: u64) -> (r: bool)
    ensures
        r == stand_for_same(a, b),
{
    let sign: u64 = 0x8000_0000_0000_0000;
    let infinity: u64 = 0x7ff0_0000_0000_0000;
    a % sign <= infinity && b % sign <= infinity && (a == b || (a == 0 || a == sign) && (b == 0
        || b == sign))
}

/// Bits stand for the same number if they are the same and stand for a number at all,
/// or if they are all zero but for the sign. No number has an exponent of eleven ones
/// and a fraction that is not zero.
pub proof fn law_same_number(a: u64, b: u64, result: bool)
    requires
        call_ensures(are_same_number, (a, b), result),
    ensures
        result <==> {
            ||| a == b && !(0x7ff0_0000_0000_0000 < a < 0x8000_0000_0000_0000) && a
                <= 0xfff0_0000_0000_0000
            ||| (a == 0 || a == 0x8000_0000_0000_0000) && (b == 0 || b == 0x8000_0000_0000_0000)
        },
{
}

} // verus!
