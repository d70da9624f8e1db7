//! Byte arithmetic with the flag results that the ALU opcodes need.

use vstd::prelude::*;

verus! {

/// Wrapping byte addition together with its carry flag: returns
/// `(carry, (num + add) mod 256)` where `carry` holds exactly when the
/// unwrapped sum exceeds 255.
pub fn add_overflow(num: u8, add: u8) -> (r: (bool, u8))
    ensures
        r.0 == (num + add > 255),
        r.1 == (num + add) % 256,
{
    let product: u16 = num as u16 + add as u16;
    if product > 255 {
        (true, (product - 256) as u8)
    } else {
        (false, product as u8)
    }
}

/// Wrapping byte subtraction together with its no-borrow flag: returns
/// `(no_borrow, (num - sub) mod 256)` where `no_borrow` holds exactly when
/// `num >= sub`.
pub fn sub_overflow(num: u8, sub: u8) -> (r: (bool, u8))
    ensures
        r.0 == (num >= sub),
        r.1 == (num - sub + 256) % 256,
{
    if num >= sub {
        (true, num - sub)
    } else {
        (false, 255 - sub + num + 1)
    }
}

/// The bit that a right shift by one discards: `num mod 2`.
pub fn least_significant_bit(num: u8) -> (r: u8)
    ensures
        r == num % 2,
{
    num % 2
}

/// The bit that a left shift by one discards: `num div 128`.
pub fn most_significant_bit(num: u8) -> (r: u8)
    ensures
        r == num / 128,
{
    num / 128
}

} // verus!
